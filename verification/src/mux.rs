//! The value layer of the muxer: validated track numbers, codec identifiers,
//! engine status codes and their mapping to this crate's error type.

use vstd::prelude::*;

mod segment;
mod writer;

pub use segment::{
    TrackAddOutcome, audio_track_outcome, codec_private_len, color_flag, finalize_duration,
    finalize_outcome, requested_track_param, status_result, video_track_outcome,
};
pub use writer::WriteCounter;

verus! {

/// The engine only issues and accepts track numbers in [1, 126], although the
/// Matroska field itself is wider.
pub open spec fn valid_track_num(v: u64) -> bool {
    1 <= v <= 126
}

/// The Matroska-level track number. Typically this is wrapped in
/// [`VideoTrackNum`] or [`AudioTrackNum`].
#[derive(Debug, Clone, Copy, PartialEq, Eq, Structural)]
pub struct TrackNum {
    raw: u64,
}

impl View for TrackNum {
    type V = u64;

    closed spec fn view(&self) -> u64 {
        self.raw
    }
}

impl TrackNum {
    #[verifier::type_invariant]
    spec fn in_engine_range(self) -> bool {
        valid_track_num(self.raw)
    }

    /// Validates a caller-supplied number. The only possible error is
    /// out-of-range: zero and anything above 126 are refused.
    pub fn try_from(value: u64) -> (r: Result<TrackNum, ()>)
        ensures
            r is Ok <==> valid_track_num(value),
            r matches Ok(n) ==> n@ == value,
    {
        if value == 0 || value > 126 {
            Err(())
        } else {
            Ok(TrackNum { raw: value })
        }
    }

    /// Re-validates a raw number handed back by the engine.
    pub fn try_from_raw(raw: u64) -> (r: Option<TrackNum>)
        ensures
            r is Some <==> valid_track_num(raw),
            r matches Some(n) ==> n@ == raw,
    {
        match TrackNum::try_from(raw) {
            Ok(n) => Some(n),
            Err(()) => None,
        }
    }

    /// The raw number, as the engine's calls take it.
    pub fn into_raw(self) -> (r: u64)
        ensures
            r == self@,
            valid_track_num(r),
    {
        proof {
            use_type_invariant(&self);
        }
        self.raw
    }
}

/// Handle for a video track, produced only by a successful track addition.
#[derive(Debug, Clone, Copy, PartialEq, Eq, Structural)]
pub struct VideoTrackNum(pub(crate) TrackNum);

impl View for VideoTrackNum {
    type V = u64;

    closed spec fn view(&self) -> u64 {
        self.0@
    }
}

impl VideoTrackNum {
    /// The underlying track number, used as the key for frame submission.
    pub fn as_track_number(&self) -> (r: TrackNum)
        ensures
            r@ == self@,
    {
        self.0
    }
}

/// Handle for an audio track, produced only by a successful track addition.
#[derive(Debug, Clone, Copy, PartialEq, Eq, Structural)]
pub struct AudioTrackNum(pub(crate) TrackNum);

impl View for AudioTrackNum {
    type V = u64;

    closed spec fn view(&self) -> u64 {
        self.0@
    }
}

impl AudioTrackNum {
    /// The underlying track number, used as the key for frame submission.
    pub fn as_track_number(&self) -> (r: TrackNum)
        ensures
            r@ == self@,
    {
        self.0
    }
}

/// The audio codecs the engine knows.
#[derive(Debug, Clone, Copy, PartialEq, Eq, Structural)]
pub enum AudioCodecId {
    Opus,
    Vorbis,
}

/// The engine-defined numeric identifier of each audio codec.
pub open spec fn audio_codec_num(c: AudioCodecId) -> u32 {
    match c {
        AudioCodecId::Opus => 0,
        AudioCodecId::Vorbis => 1,
    }
}

impl AudioCodecId {
    /// The numeric identifier the engine's track-addition call takes.
    pub fn get_id(&self) -> (r: u32)
        ensures
            r == audio_codec_num(*self),
    {
        match self {
            AudioCodecId::Opus => opus_codec_id(),
            AudioCodecId::Vorbis => vorbis_codec_id(),
        }
    }
}

/// The video codecs the engine knows.
#[derive(Debug, Clone, Copy, PartialEq, Eq, Structural)]
pub enum VideoCodecId {
    VP8,
    VP9,
    AV1,
}

/// The engine-defined numeric identifier of each video codec.
pub open spec fn video_codec_num(c: VideoCodecId) -> u32 {
    match c {
        VideoCodecId::VP8 => 0,
        VideoCodecId::VP9 => 1,
        VideoCodecId::AV1 => 2,
    }
}

impl VideoCodecId {
    /// The numeric identifier the engine's track-addition call takes.
    pub fn get_id(&self) -> (r: u32)
        ensures
            r == video_codec_num(*self),
    {
        match self {
            VideoCodecId::VP8 => vp8_codec_id(),
            VideoCodecId::VP9 => vp9_codec_id(),
            VideoCodecId::AV1 => av1_codec_id(),
        }
    }
}

/// Relies on webm_sys::mux::OPUS_CODEC_ID, the engine's constant for Opus.
#[verifier::external_body]
fn opus_codec_id() -> (r: u32)
    ensures
        r == 0,
{
    webm_sys::mux::OPUS_CODEC_ID
}

/// Relies on webm_sys::mux::VORBIS_CODEC_ID, the engine's constant for Vorbis.
#[verifier::external_body]
fn vorbis_codec_id() -> (r: u32)
    ensures
        r == 1,
{
    webm_sys::mux::VORBIS_CODEC_ID
}

/// Relies on webm_sys::mux::VP8_CODEC_ID, the engine's constant for VP8.
#[verifier::external_body]
fn vp8_codec_id() -> (r: u32)
    ensures
        r == 0,
{
    webm_sys::mux::VP8_CODEC_ID
}

/// Relies on webm_sys::mux::VP9_CODEC_ID, the engine's constant for VP9.
#[verifier::external_body]
fn vp9_codec_id() -> (r: u32)
    ensures
        r == 1,
{
    webm_sys::mux::VP9_CODEC_ID
}

/// Relies on webm_sys::mux::AV1_CODEC_ID, the engine's constant for AV1.
#[verifier::external_body]
fn av1_codec_id() -> (r: u32)
    ensures
        r == 2,
{
    webm_sys::mux::AV1_CODEC_ID
}

/// The status the engine reports for one call, as this crate reads it. The
/// caller that makes the native call translates the engine's status code into
/// this, variant for variant.
#[derive(Debug, Clone, Copy, PartialEq, Eq, Structural)]
pub enum EngineStatus {
    /// The call completed without error.
    Success,
    /// The engine rejected a parameter, such as an unknown track number.
    BadParam,
    /// The engine failed without more specific information.
    UnknownLibwebmError,
}

/// The error type for this entire crate. More specific error types will
/// be added in the future, hence the current marking as non-exhaustive.
#[derive(Debug)]
#[non_exhaustive]
pub enum Error {
    /// An unknown error occurred. While this is typically the result of
    /// incorrect parameters to methods, this is not a guarantee.
    Unknown,
}

impl Error {
    /// A human-readable description of the error.
    pub fn message(&self) -> (s: String)
        ensures
            s@ == "Unknown error"@,
    {
        String::from_str("Unknown error")
    }
}

} // verus!
