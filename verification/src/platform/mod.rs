//! Platform capabilities: audio capture settings, how text reaches the user,
//! and where the app keeps its files. The capture and text-output
//! capabilities themselves are asynchronous and live with the host.
pub mod android;
pub mod desktop_stub;

use vstd::prelude::*;
use crate::text::owned;

verus! {

#[verifier::external_type_specification]
#[verifier::external_body]
pub struct ExPathBuf(std::path::PathBuf);

/// `Clone::clone` on a `PathBuf`: the copy is the same path.
pub assume_specification[ <std::path::PathBuf as Clone>::clone ](p: &std::path::PathBuf) -> (r:
    std::path::PathBuf)
    ensures
        r == *p,
;

/// How audio is captured.
#[derive(Clone, Copy, Debug)]
pub struct AudioConfig {
    pub sample_rate_hz: u32,
    pub channels: u16,
    pub frame_size: usize,
}

impl Default for AudioConfig {
    /// 16 kHz mono in frames of 512 samples, what the speech engines expect.
    fn default() -> (c: Self)
        ensures
            c.sample_rate_hz == 16000,
            c.channels == 1,
            c.frame_size == 512,
    {
        AudioConfig { sample_rate_hz: 16000, channels: 1, frame_size: 512 }
    }
}

/// How a transcript reaches the user.
#[derive(Clone, Copy, Debug, PartialEq, Eq, Structural)]
pub enum OutputMode {
    Clipboard,
    Typed,
    ImeCommit,
}

/// Why a platform capability refused to work.
#[derive(Clone, Copy, Debug, PartialEq, Eq, Structural)]
pub enum PlatformError {
    /// The capability is not written yet for this platform.
    NotYetImplemented,
    /// This host cannot capture audio.
    AudioUnsupportedOnHost,
    /// This host cannot deliver text.
    TextOutputUnsupportedOnHost,
}

impl PlatformError {
    /// The text of the error.
    pub fn message(&self) -> (r: String)
        ensures
            r@ == (match *self {
                PlatformError::NotYetImplemented => "not yet implemented"@,
                PlatformError::AudioUnsupportedOnHost => "audio capture not supported on host"@,
                PlatformError::TextOutputUnsupportedOnHost => "text output not supported on host"@,
            }),
    {
        match self {
            PlatformError::NotYetImplemented => owned("not yet implemented"),
            PlatformError::AudioUnsupportedOnHost => owned("audio capture not supported on host"),
            PlatformError::TextOutputUnsupportedOnHost => owned("text output not supported on host"),
        }
    }
}

/// Where the app keeps its files.
pub trait AppStorage {
    fn models_dir(&self) -> std::path::PathBuf;

    fn db_path(&self) -> std::path::PathBuf;

    fn settings_path(&self) -> std::path::PathBuf;

    fn cache_dir(&self) -> std::path::PathBuf;
}

/// The name of the models directory under the app's data directory.
pub const MODELS_DIR_NAME: &'static str = "models";

/// The name of the history database under the app's data directory.
pub const DB_FILE_NAME: &'static str = "handy.db";

/// The name of the settings file under the app's data directory.
pub const SETTINGS_FILE_NAME: &'static str = "settings.json";

/// The name of the cache directory under the app's data directory.
pub const CACHE_DIR_NAME: &'static str = "cache";

} // verus!
