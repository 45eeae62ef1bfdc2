use handy::recording::{
    plan_clip, ClipPlan, LogLevel, ModelStatus, RecordingError, RecordingSlot, MIN_USEFUL_SAMPLES,
};

#[test]
fn second_start_is_refused_until_stop() {
    let mut slot: RecordingSlot<u32> = RecordingSlot::new();
    assert!(slot.check_can_start().is_ok());
    slot.begin(7);
    assert_eq!(slot.check_can_start(), Err(RecordingError::AlreadyRecording));
    assert_eq!(slot.take(), Ok(7));
    assert!(slot.check_can_start().is_ok());
    assert_eq!(slot.take(), Err(RecordingError::NoActiveRecording));
}

#[test]
fn cancel_clears_the_recording() {
    let mut slot: RecordingSlot<&str> = RecordingSlot::new();
    slot.begin("buf");
    slot.clear();
    assert!(slot.check_can_start().is_ok());
}

#[test]
fn recording_error_messages() {
    assert_eq!(RecordingError::AlreadyRecording.message(), "recording already in progress");
    assert_eq!(RecordingError::NoActiveRecording.message(), "no active recording");
}

#[test]
fn short_clips_are_skipped() {
    assert_eq!(MIN_USEFUL_SAMPLES, 4000);
    assert_eq!(plan_clip(3999, false), ClipPlan::TooShort);
    assert_eq!(plan_clip(0, true), ClipPlan::TooShort);
    assert_eq!(plan_clip(4000, false), ClipPlan::Transcribe { load_engine: true });
    assert_eq!(plan_clip(16000, true), ClipPlan::Transcribe { load_engine: false });
}

#[test]
fn model_status_from_probe() {
    assert_eq!(
        ModelStatus::from_probe(Some(31_000_000), true),
        ModelStatus { downloaded: true, loaded: true, bytes: 31_000_000 }
    );
    assert_eq!(
        ModelStatus::from_probe(None, false),
        ModelStatus { downloaded: false, loaded: false, bytes: 0 }
    );
}

#[test]
fn log_levels_by_name() {
    assert_eq!(LogLevel::from_name("warn"), LogLevel::Warn);
    assert_eq!(LogLevel::from_name("error"), LogLevel::Error);
    assert_eq!(LogLevel::from_name("info"), LogLevel::Info);
    assert_eq!(LogLevel::from_name("WARN"), LogLevel::Info);
}
