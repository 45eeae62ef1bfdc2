//! The Android capabilities, not written yet: capture and text output refuse
//! to work.
use vstd::prelude::*;
use crate::platform::{AppStorage, PlatformError};
use std::path::PathBuf;

verus! {

/// Audio capture that never captures.
pub struct AndroidAudioCapture;

/// Text output that never delivers.
pub struct AndroidTextOutput;

/// The app's file locations.
pub struct AndroidStorage {
    models: PathBuf,
    db: PathBuf,
    settings: PathBuf,
    cache: PathBuf,
}

impl AndroidAudioCapture {
    /// Why starting a capture fails.
    pub fn start_error(&self) -> (e: PlatformError)
        ensures
            e == PlatformError::NotYetImplemented,
    {
        PlatformError::NotYetImplemented
    }

    /// Whether a capture is running: never.
    pub fn is_capturing(&self) -> (r: bool)
        ensures
            !r,
    {
        false
    }
}

impl AndroidTextOutput {
    /// Why delivering text fails.
    pub fn deliver_error(&self) -> (e: PlatformError)
        ensures
            e == PlatformError::NotYetImplemented,
    {
        PlatformError::NotYetImplemented
    }
}

impl AndroidStorage {
    /// The models directory, database, settings file and cache directory.
    pub closed spec fn locations(self) -> (PathBuf, PathBuf, PathBuf, PathBuf) {
        (self.models, self.db, self.settings, self.cache)
    }

    /// The storage with these four locations.
    pub fn new(models: PathBuf, db: PathBuf, settings: PathBuf, cache: PathBuf) -> (s: Self)
        ensures
            s.locations() == (models, db, settings, cache),
    {
        AndroidStorage { models, db, settings, cache }
    }
}

impl AppStorage for AndroidStorage {
    fn models_dir(&self) -> (p: PathBuf)
        ensures
            p == self.locations().0,
    {
        self.models.clone()
    }

    fn db_path(&self) -> (p: PathBuf)
        ensures
            p == self.locations().1,
    {
        self.db.clone()
    }

    fn settings_path(&self) -> (p: PathBuf)
        ensures
            p == self.locations().2,
    {
        self.settings.clone()
    }

    fn cache_dir(&self) -> (p: PathBuf)
        ensures
            p == self.locations().3,
    {
        self.cache.clone()
    }
}

/// The audio capture of this host.
pub fn new_audio_capture() -> (r: Result<AndroidAudioCapture, PlatformError>)
    ensures
        r is Ok,
{
    Ok(AndroidAudioCapture)
}

/// The text output of this host.
pub fn new_text_output() -> (r: Result<AndroidTextOutput, PlatformError>)
    ensures
        r is Ok,
{
    Ok(AndroidTextOutput)
}

} // verus!
