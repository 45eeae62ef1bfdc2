use handy::platform::android;
use handy::platform::desktop_stub::{self, StubStorage};
use handy::platform::{AppStorage, AudioConfig, OutputMode, PlatformError};
use handy::retention::RecordingRetentionPeriod;
use handy::settings::CoreSettings;
use std::path::PathBuf;

#[test]
fn it_links() {
    assert_eq!(2 + 2, 4);
}

#[test]
fn core_settings_defaults_build() {
    let s = CoreSettings::defaults();
    let _ = s.clone();
}

#[test]
fn audio_config_default_is_16k_mono_512() {
    let c = AudioConfig::default();
    assert_eq!(c.sample_rate_hz, 16_000);
    assert_eq!(c.channels, 1);
    assert_eq!(c.frame_size, 512);
}

#[test]
fn retention_periods_compare_by_variant() {
    assert_eq!(RecordingRetentionPeriod::Days3, RecordingRetentionPeriod::Days3);
    assert_ne!(RecordingRetentionPeriod::Never, RecordingRetentionPeriod::PreserveLimit);
    assert_ne!(OutputMode::Clipboard, OutputMode::ImeCommit);
}

#[test]
fn host_stubs_refuse_capture_and_output() {
    let audio = desktop_stub::new_audio_capture().unwrap();
    assert!(!audio.is_capturing());
    assert_eq!(audio.start_error(), PlatformError::AudioUnsupportedOnHost);
    assert_eq!(audio.start_error().message(), "audio capture not supported on host");
    let text = desktop_stub::new_text_output().unwrap();
    assert_eq!(text.deliver_error().message(), "text output not supported on host");
}

#[test]
fn android_capabilities_are_not_implemented_yet() {
    let audio = android::new_audio_capture().unwrap();
    assert!(!audio.is_capturing());
    assert_eq!(audio.start_error().message(), "not yet implemented");
    let text = android::new_text_output().unwrap();
    assert_eq!(text.deliver_error(), PlatformError::NotYetImplemented);
}

#[test]
fn stub_storage_reports_its_locations() {
    let base = PathBuf::from("/data/app");
    let s = StubStorage::new(
        base.join(handy::platform::MODELS_DIR_NAME),
        base.join(handy::platform::DB_FILE_NAME),
        base.join(handy::platform::SETTINGS_FILE_NAME),
        base.join(handy::platform::CACHE_DIR_NAME),
    );
    assert_eq!(s.models_dir(), PathBuf::from("/data/app/models"));
    assert_eq!(s.db_path(), PathBuf::from("/data/app/handy.db"));
    assert_eq!(s.settings_path(), PathBuf::from("/data/app/settings.json"));
    assert_eq!(s.cache_dir(), PathBuf::from("/data/app/cache"));
}
