use webm::mux::{
    AudioCodecId, EngineStatus, Error, TrackAddOutcome, TrackNum, VideoCodecId, WriteCounter,
    audio_track_outcome, codec_private_len, color_flag, finalize_duration, finalize_outcome,
    requested_track_param, status_result, video_track_outcome,
};

#[test]
fn track_num_accepts_exactly_1_to_126() {
    for value in 0u64..=300u64 {
        let result = TrackNum::try_from(value);
        if (1..=126).contains(&value) {
            let num = result.expect("in-range value should be accepted");
            assert_eq!(num.into_raw(), value);
        } else {
            assert!(result.is_err());
        }
    }
}

#[test]
fn track_num_rejects_large_explicit_number() {
    assert!(TrackNum::try_from(123456).is_err());
}

#[test]
fn track_num_rejects_zero() {
    assert!(TrackNum::try_from(0).is_err());
}

#[test]
fn track_num_try_from_raw_revalidates() {
    assert!(TrackNum::try_from_raw(0).is_none());
    assert!(TrackNum::try_from_raw(127).is_none());
    let num = TrackNum::try_from_raw(126).expect("126 is the largest accepted number");
    assert_eq!(num.into_raw(), 126);
}

#[test]
fn audio_codec_ids_match_engine_constants() {
    assert_eq!(AudioCodecId::Opus.get_id(), 0);
    assert_eq!(AudioCodecId::Vorbis.get_id(), 1);
}

#[test]
fn video_codec_ids_match_engine_constants() {
    assert_eq!(VideoCodecId::VP8.get_id(), 0);
    assert_eq!(VideoCodecId::VP9.get_id(), 1);
    assert_eq!(VideoCodecId::AV1.get_id(), 2);
}

#[test]
fn status_result_maps_every_failure_to_the_opaque_error() {
    assert!(status_result(EngineStatus::Success).is_ok());
    assert!(matches!(
        status_result(EngineStatus::BadParam),
        Err(Error::Unknown)
    ));
    assert!(matches!(
        status_result(EngineStatus::UnknownLibwebmError),
        Err(Error::Unknown)
    ));
}

#[test]
fn video_track_outcome_accepts_honoured_request() {
    let requested = TrackNum::try_from(123).unwrap();
    let outcome = video_track_outcome(EngineStatus::Success, Some(requested), 123);
    match outcome {
        TrackAddOutcome::Added(handle) => {
            assert_eq!(handle.as_track_number(), requested);
            assert_eq!(handle.as_track_number().into_raw(), 123);
        }
        _ => panic!("a successful, honoured request should yield a handle"),
    }
}

#[test]
fn video_track_outcome_accepts_engine_chosen_number() {
    let outcome = video_track_outcome(EngineStatus::Success, None, 1);
    match outcome {
        TrackAddOutcome::Added(handle) => {
            assert_eq!(handle.as_track_number().into_raw(), 1);
        }
        _ => panic!("a successful auto-assignment should yield a handle"),
    }
}

#[test]
fn video_track_outcome_refuses_on_engine_failure() {
    let requested = TrackNum::try_from(123).unwrap();
    let outcome = video_track_outcome(EngineStatus::BadParam, Some(requested), 0);
    assert!(matches!(outcome, TrackAddOutcome::Refused(Error::Unknown)));
    let outcome = video_track_outcome(EngineStatus::UnknownLibwebmError, None, 0);
    assert!(matches!(outcome, TrackAddOutcome::Refused(Error::Unknown)));
}

#[test]
fn video_track_outcome_flags_out_of_range_assignment() {
    let outcome = video_track_outcome(EngineStatus::Success, None, 127);
    assert!(matches!(outcome, TrackAddOutcome::AssignedOutOfRange));
    let outcome = video_track_outcome(EngineStatus::Success, None, 0);
    assert!(matches!(outcome, TrackAddOutcome::AssignedOutOfRange));
}

#[test]
fn video_track_outcome_flags_ignored_request() {
    let requested = TrackNum::try_from(7).unwrap();
    let outcome = video_track_outcome(EngineStatus::Success, Some(requested), 8);
    assert!(matches!(outcome, TrackAddOutcome::AssignedMismatch));
}

#[test]
fn audio_track_outcome_mirrors_video_decision() {
    let requested = TrackNum::try_from(9).unwrap();
    match audio_track_outcome(EngineStatus::Success, Some(requested), 9) {
        TrackAddOutcome::Added(handle) => {
            assert_eq!(handle.as_track_number(), requested);
        }
        _ => panic!("a successful, honoured request should yield a handle"),
    }
    assert!(matches!(
        audio_track_outcome(EngineStatus::BadParam, Some(requested), 0),
        TrackAddOutcome::Refused(Error::Unknown)
    ));
    assert!(matches!(
        audio_track_outcome(EngineStatus::Success, Some(requested), 10),
        TrackAddOutcome::AssignedMismatch
    ));
    assert!(matches!(
        audio_track_outcome(EngineStatus::Success, None, 200),
        TrackAddOutcome::AssignedOutOfRange
    ));
}

#[test]
fn requested_track_param_is_number_or_zero() {
    assert_eq!(requested_track_param(None), 0);
    let num = TrackNum::try_from(42).unwrap();
    assert_eq!(requested_track_param(Some(num)), 42);
}

#[test]
fn finalize_duration_defaults_to_zero() {
    assert_eq!(finalize_duration(None), 0);
    assert_eq!(finalize_duration(Some(98765)), 98765);
}

#[test]
fn finalize_outcome_returns_destination_on_both_paths() {
    let dest = vec![1u8, 2, 3];
    match finalize_outcome(EngineStatus::Success, dest.clone()) {
        Ok(back) => assert_eq!(back, dest),
        Err(_) => panic!("success status must come back as Ok"),
    }
    match finalize_outcome(EngineStatus::UnknownLibwebmError, dest.clone()) {
        Ok(_) => panic!("failure status must come back as Err"),
        Err(back) => assert_eq!(back, dest),
    }
}

#[test]
fn color_flag_maps_bools_to_engine_integers() {
    assert_eq!(color_flag(true), 1);
    assert_eq!(color_flag(false), 0);
}

#[test]
fn codec_private_len_narrows_exactly() {
    assert_eq!(codec_private_len(0), 0);
    assert_eq!(codec_private_len(4), 4);
}

#[test]
fn write_counter_tracks_sequential_appends() {
    let mut counter = WriteCounter::new();
    assert_eq!(counter.position(), 0);
    assert!(counter.record_write(5, Some(5)));
    assert_eq!(counter.position(), 5);
    assert!(counter.record_write(11, Some(11)));
    assert_eq!(counter.position(), 16);
}

#[test]
fn write_counter_treats_short_write_as_failure() {
    let mut counter = WriteCounter::new();
    assert!(!counter.record_write(5, Some(3)));
    assert_eq!(counter.position(), 3);
}

#[test]
fn write_counter_leaves_position_alone_on_write_error() {
    let mut counter = WriteCounter::new();
    assert!(counter.record_write(8, Some(8)));
    assert!(!counter.record_write(8, None));
    assert_eq!(counter.position(), 8);
}

#[test]
fn error_message_describes_unknown_error() {
    assert_eq!(Error::Unknown.message(), "Unknown error");
}
