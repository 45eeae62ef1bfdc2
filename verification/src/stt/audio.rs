//! Checks and sizes around the audio the host feeds its engines.
use vstd::prelude::*;
use crate::stt::error::SttError;

verus! {

/// The sample rate the engines expect.
pub const ENGINE_SAMPLE_RATE: u32 = 16000;

/// The number of input samples the resampler consumes per call.
pub const RESAMPLE_CHUNK: usize = 1024;

/// How the samples of an accepted WAV file are stored.
#[derive(Clone, Copy, Debug, PartialEq, Eq, Structural)]
pub enum WavSamples {
    /// 32-bit float samples.
    Float,
    /// 16-bit integer samples.
    Int16,
}

/// Which WAV files the host transcribes: mono, with float or 16-bit integer
/// samples.
pub fn check_wav_format(channels: u16, is_float: bool, bits_per_sample: u16) -> (r: Result<
    WavSamples,
    SttError,
>)
    ensures
        channels != 1 ==> r matches Err(SttError::WavNotMono),
        channels == 1 && is_float ==> r matches Ok(WavSamples::Float),
        channels == 1 && !is_float && bits_per_sample == 16 ==> r matches Ok(WavSamples::Int16),
        channels == 1 && !is_float && bits_per_sample != 16 ==> (r matches Err(
            SttError::UnsupportedWavBits(b),
        ) && b == bits_per_sample),
{
    if channels != 1 {
        return Err(SttError::WavNotMono);
    }
    if is_float {
        Ok(WavSamples::Float)
    } else if bits_per_sample != 16 {
        Err(SttError::UnsupportedWavBits(bits_per_sample))
    } else {
        Ok(WavSamples::Int16)
    }
}

/// Whether audio at `sample_rate` must be resampled before an engine sees it.
pub fn needs_resample(sample_rate: u32) -> (r: bool)
    ensures
        r == (sample_rate != ENGINE_SAMPLE_RATE),
{
    sample_rate != ENGINE_SAMPLE_RATE
}

/// The length `len` samples are zero-padded to so that the resampler gets
/// whole chunks: the next multiple of `RESAMPLE_CHUNK`.
pub fn resample_padded_len(len: usize) -> (r: usize)
    requires
        len + RESAMPLE_CHUNK <= usize::MAX,
    ensures
        r == (if len % RESAMPLE_CHUNK == 0 {
            len as int
        } else {
            len + RESAMPLE_CHUNK - len % RESAMPLE_CHUNK
        }),
        r % RESAMPLE_CHUNK == 0,
        len <= r < len + RESAMPLE_CHUNK,
{
    let rem = len % RESAMPLE_CHUNK;
    if rem != 0 {
        len + (RESAMPLE_CHUNK - rem)
    } else {
        len
    }
}

} // verus!
