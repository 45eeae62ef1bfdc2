//! Stand-ins for hosts other than Android: the mobile app builds on them but
//! is only meant to run on Android, so capture and text output refuse to work.
use vstd::prelude::*;
use crate::platform::{AppStorage, PlatformError};
use std::path::PathBuf;

verus! {

/// Audio capture that never captures.
pub struct StubAudio;

/// Text output that never delivers.
pub struct StubText;

/// The app's file locations.
pub struct StubStorage {
    models: PathBuf,
    db: PathBuf,
    settings: PathBuf,
    cache: PathBuf,
}

impl StubAudio {
    /// Why starting a capture fails.
    pub fn start_error(&self) -> (e: PlatformError)
        ensures
            e == PlatformError::AudioUnsupportedOnHost,
    {
        PlatformError::AudioUnsupportedOnHost
    }

    /// Whether a capture is running: never.
    pub fn is_capturing(&self) -> (r: bool)
        ensures
            !r,
    {
        false
    }
}

impl StubText {
    /// Why delivering text fails.
    pub fn deliver_error(&self) -> (e: PlatformError)
        ensures
            e == PlatformError::TextOutputUnsupportedOnHost,
    {
        PlatformError::TextOutputUnsupportedOnHost
    }
}

impl StubStorage {
    /// The models directory, database, settings file and cache directory.
    pub closed spec fn locations(self) -> (PathBuf, PathBuf, PathBuf, PathBuf) {
        (self.models, self.db, self.settings, self.cache)
    }

    /// The storage with these four locations.
    pub fn new(models: PathBuf, db: PathBuf, settings: PathBuf, cache: PathBuf) -> (s: Self)
        ensures
            s.locations() == (models, db, settings, cache),
    {
        StubStorage { models, db, settings, cache }
    }
}

impl AppStorage for StubStorage {
    fn models_dir(&self) -> (p: PathBuf)
        ensures
            p == self.locations().0,
    {
        self.models.clone()
    }

    fn db_path(&self) -> (p: PathBuf)
        ensures
            p == self.locations().1,
    {
        self.db.clone()
    }

    fn settings_path(&self) -> (p: PathBuf)
        ensures
            p == self.locations().2,
    {
        self.settings.clone()
    }

    fn cache_dir(&self) -> (p: PathBuf)
        ensures
            p == self.locations().3,
    {
        self.cache.clone()
    }
}

/// The audio capture of this host.
pub fn new_audio_capture() -> (r: Result<StubAudio, PlatformError>)
    ensures
        r is Ok,
{
    Ok(StubAudio)
}

/// The text output of this host.
pub fn new_text_output() -> (r: Result<StubText, PlatformError>)
    ensures
        r is Ok,
{
    Ok(StubText)
}

} // verus!
