//! The decisions of the mobile app's recording commands: one recording at a
//! time, clips shorter than a quarter second are not transcribed, and the
//! Whisper engine is loaded on the first transcription.
use vstd::prelude::*;
use crate::text::owned;

verus! {

/// Where the default model is downloaded from.
pub const DEFAULT_MODEL_URL: &'static str =
    "https://huggingface.co/ggerganov/whisper.cpp/resolve/main/ggml-tiny-q5_1.bin";

/// The file name of the default model under the models dir.
pub const DEFAULT_MODEL_FILENAME: &'static str = "ggml-tiny-q5_1.bin";

/// The event that carries download progress of the default model.
pub const MODEL_DOWNLOAD_PROGRESS_EVENT: &'static str = "model/download/progress";

/// The event sent once the default model is on disk.
pub const MODEL_READY_EVENT: &'static str = "model/ready";

/// The sample rate of the captured audio.
pub const SAMPLE_RATE_HZ: usize = 16000;

/// Below this many samples (0.25 s) a clip is not transcribed: Whisper
/// hallucinates on sub-second clips, and the user most likely mistapped.
pub const MIN_USEFUL_SAMPLES: usize = SAMPLE_RATE_HZ / 4;

/// Why a recording command was refused.
#[derive(Clone, Copy, Debug, PartialEq, Eq, Structural)]
pub enum RecordingError {
    /// A recording is already running.
    AlreadyRecording,
    /// No recording is running.
    NoActiveRecording,
}

impl RecordingError {
    /// The message the command returns for this error.
    pub fn message(&self) -> (r: String)
        ensures
            r@ == (match *self {
                RecordingError::AlreadyRecording => "recording already in progress"@,
                RecordingError::NoActiveRecording => "no active recording"@,
            }),
    {
        match self {
            RecordingError::AlreadyRecording => owned("recording already in progress"),
            RecordingError::NoActiveRecording => owned("no active recording"),
        }
    }
}

/// The slot that holds the buffer of the running recording, if any.
pub struct RecordingSlot<B> {
    pub current: Option<B>,
}

/// Whether a new recording may start in `slot`.
pub open spec fn can_start<B>(slot: RecordingSlot<B>) -> bool {
    slot.current is None
}

/// One recording at a time: once a recording has begun, a start is refused
/// until the recording is taken (stop) or cleared (cancel); then a start is
/// allowed again. What stop takes out is the buffer the recording began with.
pub proof fn law_one_recording_at_a_time<B>(
    begun: RecordingSlot<B>,
    buffer: B,
    stopped: RecordingSlot<B>,
    taken: Result<B, RecordingError>,
    cancelled: RecordingSlot<B>,
)
    requires
        begun.current == Some(buffer),
        stopped.current is None,
        taken == (match begun.current {
            Some(b) => Ok::<B, RecordingError>(b),
            None => Err(RecordingError::NoActiveRecording),
        }),
        cancelled.current is None,
    ensures
        !can_start(begun),
        taken == Ok::<B, RecordingError>(buffer),
        can_start(stopped),
        can_start(cancelled),
{
}

impl<B> RecordingSlot<B> {
    /// An empty slot.
    pub fn new() -> (s: Self)
        ensures
            s.current is None,
    {
        RecordingSlot { current: None }
    }

    /// Whether a new recording may start: not while one is running.
    pub fn check_can_start(&self) -> (r: Result<(), RecordingError>)
        ensures
            !can_start(*self) ==> r == Err::<(), RecordingError>(RecordingError::AlreadyRecording),
            can_start(*self) ==> r is Ok,
    {
        if self.current.is_some() {
            Err(RecordingError::AlreadyRecording)
        } else {
            Ok(())
        }
    }

    /// Stores the buffer of the recording that just started.
    pub fn begin(&mut self, buffer: B)
        ensures
            final(self).current == Some(buffer),
    {
        self.current = Some(buffer);
    }

    /// Drops the running recording, if any.
    pub fn clear(&mut self)
        ensures
            final(self).current is None,
    {
        self.current = None;
    }

    /// Takes the buffer of the running recording out of the slot.
    pub fn take(&mut self) -> (r: Result<B, RecordingError>)
        ensures
            final(self).current is None,
            match old(self).current {
                Some(b) => r == Ok::<B, RecordingError>(b),
                None => r == Err::<B, RecordingError>(RecordingError::NoActiveRecording),
            },
    {
        match self.current.take() {
            Some(b) => Ok(b),
            None => Err(RecordingError::NoActiveRecording),
        }
    }
}

/// What to do with a finished clip.
#[derive(Clone, Copy, Debug, PartialEq, Eq, Structural)]
pub enum ClipPlan {
    /// Too short: answer with an empty transcript.
    TooShort,
    /// Transcribe it, loading the engine first when it is not loaded.
    Transcribe { load_engine: bool },
}

/// What to do with a clip of `n_samples` samples.
pub fn plan_clip(n_samples: usize, engine_loaded: bool) -> (r: ClipPlan)
    ensures
        n_samples < MIN_USEFUL_SAMPLES ==> r == ClipPlan::TooShort,
        n_samples >= MIN_USEFUL_SAMPLES ==> r == (ClipPlan::Transcribe {
            load_engine: !engine_loaded,
        }),
{
    if n_samples < MIN_USEFUL_SAMPLES {
        ClipPlan::TooShort
    } else {
        ClipPlan::Transcribe { load_engine: !engine_loaded }
    }
}

/// Whether the default model is on disk and loaded, and its size.
#[derive(Clone, Copy, Debug, PartialEq, Eq, Structural)]
pub struct ModelStatus {
    pub downloaded: bool,
    pub loaded: bool,
    pub bytes: u64,
}

impl ModelStatus {
    /// The status, given the length of the model file if it exists and
    /// whether the engine is loaded.
    pub fn from_probe(file_len: Option<u64>, engine_loaded: bool) -> (s: Self)
        ensures
            s.downloaded == file_len is Some,
            s.loaded == engine_loaded,
            s.bytes == (match file_len {
                Some(n) => n,
                None => 0,
            }),
    {
        ModelStatus {
            downloaded: file_len.is_some(),
            loaded: engine_loaded,
            bytes: match file_len {
                Some(n) => n,
                None => 0,
            },
        }
    }
}

/// The severity of a line of the app log.
#[derive(Clone, Copy, Debug, PartialEq, Eq, Structural)]
pub enum LogLevel {
    Info,
    Warn,
    Error,
}

impl LogLevel {
    /// The level that a level name selects: `warn`, `error`, anything else
    /// is info.
    pub fn from_name(level: &str) -> (r: LogLevel)
        ensures
            level@ == "warn"@ ==> r == LogLevel::Warn,
            level@ == "error"@ ==> r == LogLevel::Error,
            level@ != "warn"@ && level@ != "error"@ ==> r == LogLevel::Info,
    {
        proof {
            reveal_strlit("warn");
            reveal_strlit("error");
            assert("warn"@.len() != "error"@.len());
        }
        if crate::text::str_equal(level, "warn") {
            LogLevel::Warn
        } else if crate::text::str_equal(level, "error") {
            LogLevel::Error
        } else {
            LogLevel::Info
        }
    }
}

} // verus!
