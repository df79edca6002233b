//! Decisions the muxer takes around each engine call on a segment: mapping
//! status codes to errors, shaping call arguments, and judging the track
//! number the engine hands back.

use vstd::prelude::*;

use crate::mux::{AudioTrackNum, EngineStatus, Error, TrackNum, VideoTrackNum, valid_track_num};

verus! {

/// The decision taken after the engine answers a track-addition call.
///
/// The last two variants are contract violations between this crate and the
/// engine, not user errors: the caller that made the native call must treat
/// them as a defect and abort rather than tolerate them silently.
pub enum TrackAddOutcome<H> {
    /// The engine reported success and assigned this track.
    Added(H),
    /// The engine refused the call; surfaced as the opaque error.
    Refused(Error),
    /// The engine claimed success but handed back a number outside [1, 126].
    AssignedOutOfRange,
    /// The engine claimed success but ignored the explicitly requested number.
    AssignedMismatch,
}

/// Judges the engine's answer to a video-track addition: the handle exists
/// exactly when the engine succeeded, handed back a number in range, and
/// honoured an explicit request.
pub fn video_track_outcome(
    status: EngineStatus,
    requested: Option<TrackNum>,
    assigned: u64,
) -> (r: TrackAddOutcome<VideoTrackNum>)
    ensures
        r is Added <==> (status is Success && valid_track_num(assigned) && (requested
            matches Some(n) ==> n@ == assigned)),
        r matches TrackAddOutcome::Added(h) ==> h@ == assigned,
        r is Refused <==> !(status is Success),
        r matches TrackAddOutcome::Refused(e) ==> e is Unknown,
        r is AssignedOutOfRange <==> status is Success && !valid_track_num(assigned),
        r is AssignedMismatch <==> (status is Success && valid_track_num(assigned) && (requested
            matches Some(n) && n@ != assigned)),
{
    match status {
        EngineStatus::Success => match TrackNum::try_from_raw(assigned) {
            Some(num) => match requested {
                Some(want) => {
                    if want == num {
                        TrackAddOutcome::Added(VideoTrackNum(num))
                    } else {
                        TrackAddOutcome::AssignedMismatch
                    }
                },
                None => TrackAddOutcome::Added(VideoTrackNum(num)),
            },
            None => TrackAddOutcome::AssignedOutOfRange,
        },
        _ => TrackAddOutcome::Refused(Error::Unknown),
    }
}

/// Judges the engine's answer to an audio-track addition, exactly as
/// [`video_track_outcome`] does for video.
pub fn audio_track_outcome(
    status: EngineStatus,
    requested: Option<TrackNum>,
    assigned: u64,
) -> (r: TrackAddOutcome<AudioTrackNum>)
    ensures
        r is Added <==> (status is Success && valid_track_num(assigned) && (requested
            matches Some(n) ==> n@ == assigned)),
        r matches TrackAddOutcome::Added(h) ==> h@ == assigned,
        r is Refused <==> !(status is Success),
        r matches TrackAddOutcome::Refused(e) ==> e is Unknown,
        r is AssignedOutOfRange <==> status is Success && !valid_track_num(assigned),
        r is AssignedMismatch <==> (status is Success && valid_track_num(assigned) && (requested
            matches Some(n) && n@ != assigned)),
{
    match status {
        EngineStatus::Success => match TrackNum::try_from_raw(assigned) {
            Some(num) => match requested {
                Some(want) => {
                    if want == num {
                        TrackAddOutcome::Added(AudioTrackNum(num))
                    } else {
                        TrackAddOutcome::AssignedMismatch
                    }
                },
                None => TrackAddOutcome::Added(AudioTrackNum(num)),
            },
            None => TrackAddOutcome::AssignedOutOfRange,
        },
        _ => TrackAddOutcome::Refused(Error::Unknown),
    }
}

/// The `number` argument handed to the engine's track-addition calls: the
/// requested number, or zero to let the engine choose one.
pub fn requested_track_param(requested: Option<TrackNum>) -> (r: i32)
    ensures
        requested matches Some(n) ==> r == n@,
        requested is None ==> r == 0,
{
    match requested {
        Some(n) => n.into_raw() as i32,
        None => 0,
    }
}

/// Maps an engine status to this crate's intentionally coarse error: every
/// non-success status becomes the single opaque error.
pub fn status_result(status: EngineStatus) -> (r: Result<(), Error>)
    ensures
        r is Ok <==> status is Success,
        r matches Err(e) ==> e is Unknown,
{
    match status {
        EngineStatus::Success => Ok(()),
        EngineStatus::BadParam | EngineStatus::UnknownLibwebmError => Err(Error::Unknown),
    }
}

/// The duration argument handed to the engine at finalization: zero means
/// no explicit duration was given.
pub fn finalize_duration(duration: Option<u64>) -> (r: u64)
    ensures
        duration matches Some(d) ==> r == d,
        duration is None ==> r == 0,
{
    match duration {
        Some(d) => d,
        None => 0,
    }
}

/// The decision after finalization. The destination comes back to the caller
/// on both the success and the failure path, so it is never stranded.
pub fn finalize_outcome<W>(status: EngineStatus, writer: W) -> (r: Result<W, W>)
    ensures
        r is Ok <==> status is Success,
        r matches Ok(w) ==> w == writer,
        r matches Err(w) ==> w == writer,
{
    match status {
        EngineStatus::Success => Ok(writer),
        EngineStatus::BadParam | EngineStatus::UnknownLibwebmError => Err(writer),
    }
}

/// A boolean color flag as the engine's color call takes it: one for set,
/// zero for clear.
pub fn color_flag(flag: bool) -> (r: u8)
    ensures
        flag ==> r == 1,
        !flag ==> r == 0,
{
    if flag {
        1
    } else {
        0
    }
}

/// The length argument of a codec-private block, as the engine's call takes
/// it: the engine narrows the length to a signed 32-bit value.
pub fn codec_private_len(len: usize) -> (r: i32)
    requires
        len <= i32::MAX,
    ensures
        r == len,
{
    len as i32
}


} // verus!
