//! The errors that the transcription host reports in its responses.
use vstd::prelude::*;
use crate::text::{concat2, decimal, decimal_string, owned};
use vstd::string::*;

verus! {

/// A request argument that a command needs.
#[derive(Clone, Copy, Debug, PartialEq, Eq, Structural)]
pub enum ArgName {
    ModelId,
    SessionId,
    Data,
    Path,
}

/// Why a request failed.
#[derive(Debug)]
pub enum SttError {
    /// The command name is not one the host knows.
    UnknownCommand(String),
    /// A required argument is absent or has the wrong JSON type.
    MissingArgument(ArgName),
    /// `push_audio` named an encoding other than `pcm_s16le`.
    UnsupportedEncoding(String),
    /// No catalog entry has this id.
    UnknownModel(String),
    /// The catalog entry has no download URL.
    NoDownloadUrl(String),
    /// A download is already running.
    AnotherDownload,
    /// The model's file or directory is not on disk.
    ModelNotDownloaded(String),
    /// No engine is loaded.
    ModelNotLoaded,
    /// No streaming session is open.
    NoActiveSession,
    /// The request names another session than the open one.
    SessionMismatch,
    /// The audio payload is not valid base64; the text describes why.
    InvalidBase64(String),
    /// The decoded audio payload has an odd number of bytes.
    InvalidPcmLength,
    /// The WAV file has more than one channel.
    WavNotMono,
    /// The WAV file holds integer samples of another width than 16 bits.
    UnsupportedWavBits(u16),
}

/// The name under which an argument appears in a request.
pub open spec fn arg_key(a: ArgName) -> Seq<char> {
    match a {
        ArgName::ModelId => "model_id"@,
        ArgName::SessionId => "session_id"@,
        ArgName::Data => "data"@,
        ArgName::Path => "path"@,
    }
}

/// The message that a response carries for `e`.
pub open spec fn error_message(e: SttError) -> Seq<char> {
    match e {
        SttError::UnknownCommand(c) => "unknown cmd: "@ + c@,
        SttError::MissingArgument(a) => "missing args."@ + arg_key(a),
        SttError::UnsupportedEncoding(enc) => "unsupported encoding: "@ + enc@,
        SttError::UnknownModel(id) => "unknown model_id: "@ + id@,
        SttError::NoDownloadUrl(id) => "model has no download url: "@ + id@,
        SttError::AnotherDownload => "another model is downloading"@,
        SttError::ModelNotDownloaded(id) => "model not downloaded: "@ + id@,
        SttError::ModelNotLoaded => "model is not loaded"@,
        SttError::NoActiveSession => "no active session"@,
        SttError::SessionMismatch => "session mismatch"@,
        SttError::InvalidBase64(detail) => "invalid base64 audio: "@ + detail@,
        SttError::InvalidPcmLength => "invalid pcm_s16le payload length"@,
        SttError::WavNotMono => "wav must be mono (channels=1)"@,
        SttError::UnsupportedWavBits(bits) => "unsupported int wav bits_per_sample: "@ + decimal(
            bits as nat,
        ),
    }
}

fn arg_key_str(a: ArgName) -> (r: &'static str)
    ensures
        r@ == arg_key(a),
{
    match a {
        ArgName::ModelId => "model_id",
        ArgName::SessionId => "session_id",
        ArgName::Data => "data",
        ArgName::Path => "path",
    }
}

impl SttError {
    /// The message that a response carries for this error.
    pub fn message(&self) -> (r: String)
        ensures
            r@ == error_message(*self),
    {
        match self {
            SttError::UnknownCommand(c) => concat2("unknown cmd: ", c.as_str()),
            SttError::MissingArgument(a) => concat2("missing args.", arg_key_str(*a)),
            SttError::UnsupportedEncoding(enc) => concat2("unsupported encoding: ", enc.as_str()),
            SttError::UnknownModel(id) => concat2("unknown model_id: ", id.as_str()),
            SttError::NoDownloadUrl(id) => concat2("model has no download url: ", id.as_str()),
            SttError::AnotherDownload => owned("another model is downloading"),
            SttError::ModelNotDownloaded(id) => concat2("model not downloaded: ", id.as_str()),
            SttError::ModelNotLoaded => owned("model is not loaded"),
            SttError::NoActiveSession => owned("no active session"),
            SttError::SessionMismatch => owned("session mismatch"),
            SttError::InvalidBase64(detail) => concat2("invalid base64 audio: ", detail.as_str()),
            SttError::InvalidPcmLength => owned("invalid pcm_s16le payload length"),
            SttError::WavNotMono => owned("wav must be mono (channels=1)"),
            SttError::UnsupportedWavBits(bits) => {
                let mut s = owned("unsupported int wav bits_per_sample: ");
                let digits = decimal_string(*bits as u64);
                s.append(digits.as_str());
                s
            },
        }
    }
}

} // verus!
