//! Streaming audio sessions: a client opens a session, pushes base64-encoded
//! 16-bit little-endian PCM chunks into it, and finishes it to get the audio
//! back for transcription.
use vstd::prelude::*;
use crate::stt::error::SttError;

verus! {

#[verifier::external_type_specification]
#[verifier::external_body]
pub struct ExDecodeError(base64::DecodeError);

/// What `base64::Engine::decode` on the `STANDARD` engine (standard alphabet,
/// canonical padding) yields for the bytes of `text`: the decoded bytes, or
/// `None` where it reports an error.
pub uninterp spec fn standard_base64_decode(text: Seq<char>) -> Option<Seq<u8>>;

/// Calls `base64::Engine::decode` with `base64::engine::general_purpose::STANDARD`.
/// The contract claims only that the outcome is a function of `text`: the
/// decoded bytes on success, and an error exactly where that function has no
/// value.
#[verifier::external_body]
fn decode_standard_base64(text: &str) -> (r: Result<Vec<u8>, base64::DecodeError>)
    ensures
        match r {
            Ok(bytes) => standard_base64_decode(text@) == Some(bytes@),
            Err(_) => standard_base64_decode(text@) is None,
        },
{
    base64::Engine::decode(&base64::engine::general_purpose::STANDARD, text)
}

/// Renders a `base64::DecodeError` through its `Display` impl. Nothing is
/// claimed about the text.
#[verifier::external_body]
fn describe_decode_error(e: &base64::DecodeError) -> String {
    format!("{}", e)
}

/// The sample that the little-endian byte pair `lo`, `hi` encodes.
pub open spec fn le_i16(lo: u8, hi: u8) -> i16 {
    let v = lo as int + 256 * hi as int;
    (if v >= 32768 {
        v - 65536
    } else {
        v
    }) as i16
}

/// The samples of a 16-bit little-endian PCM payload.
pub open spec fn pcm_s16le_samples(bytes: Seq<u8>) -> Seq<i16> {
    Seq::new(bytes.len() / 2, |k: int| le_i16(bytes[2 * k], bytes[2 * k + 1]))
}

/// The sample rate assumed when a session did not name one.
pub const DEFAULT_SAMPLE_RATE: u32 = 16000;

/// Appends the samples of the PCM payload `bytes` to `out`.
fn append_pcm_s16le(bytes: &Vec<u8>, out: &mut Vec<i16>)
    requires
        bytes.len() % 2 == 0,
    ensures
        final(out)@ == old(out)@ + pcm_s16le_samples(bytes@),
{
    let n = bytes.len();
    let ghost start = old(out)@;
    let mut i: usize = 0;
    while i < n
        invariant
            n == bytes.len(),
            n % 2 == 0,
            i % 2 == 0,
            i <= n,
            out@ == start + pcm_s16le_samples(bytes@).take(i as int / 2),
        decreases n - i,
    {
        assert(i + 1 < n) by {
            assert(i % 2 == 0 && n % 2 == 0 && i < n);
        }
        let lo = bytes[i] as i32;
        let hi = bytes[i + 1] as i32;
        let v = lo + hi * 256;
        let s: i32 = if v >= 32768 {
            v - 65536
        } else {
            v
        };
        out.push(s as i16);
        proof {
            let k = i as int / 2;
            assert(2 * k == i);
            assert(pcm_s16le_samples(bytes@)[k] == le_i16(bytes@[2 * k], bytes@[2 * k + 1]));
            assert(pcm_s16le_samples(bytes@).take(k + 1) =~= pcm_s16le_samples(bytes@).take(k).push(
                pcm_s16le_samples(bytes@)[k],
            ));
        }
        i += 2;
    }
    assert(pcm_s16le_samples(bytes@).take(n as int / 2) =~= pcm_s16le_samples(bytes@));
}

/// The streaming session of the host: at most one is open at a time.
pub struct SessionBuffer {
    /// The id of the open session.
    pub current: Option<u64>,
    /// The samples pushed into the open session so far.
    pub audio: Vec<i16>,
    /// The sample rate the open session was started with.
    pub sample_rate: Option<u32>,
    /// The id the next session gets.
    pub next_id: u64,
}

/// The id after `id`, wrapping around at `u64::MAX`.
pub open spec fn successor_id(id: u64) -> u64 {
    if id == u64::MAX {
        0
    } else {
        (id + 1) as u64
    }
}

/// How opening a session at `sample_rate` takes `old` to `new`, the session
/// getting id `id`.
pub open spec fn start_effect(old: SessionBuffer, new: SessionBuffer, sample_rate: u32, id: u64) -> bool {
    &&& id == old.next_id
    &&& new.next_id == successor_id(old.next_id)
    &&& new.current == Some(id)
    &&& new.sample_rate == Some(sample_rate)
    &&& new.audio@.len() == 0
}

/// The samples that the chunks `chunks` decode to, one after the other
/// (meaningful when each chunk is valid).
pub open spec fn decoded_audio(chunks: Seq<Seq<char>>) -> Seq<i16>
    decreases chunks.len(),
{
    if chunks.len() == 0 {
        seq![]
    } else {
        decoded_audio(chunks.drop_last()) + pcm_s16le_samples(
            standard_base64_decode(chunks.last()).unwrap(),
        )
    }
}

/// Accepted pushes accumulate: after the chunks `chunks` were pushed one by
/// one into session `id` and each was accepted, the session holds the audio
/// it held before followed by the samples of every chunk in order, and is
/// still open at its sample rate.
pub proof fn law_pushes_accumulate(states: Seq<SessionBuffer>, chunks: Seq<Seq<char>>, id: u64)
    requires
        states.len() == chunks.len() + 1,
        forall|i: int|
            0 <= i < chunks.len() ==> push_effect(
                #[trigger] states[i],
                states[i + 1],
                id,
                chunks[i],
                Ok(()),
            ),
    ensures
        states.last().audio@ == states[0].audio@ + decoded_audio(chunks),
        states.last().current == states[0].current,
        states.last().sample_rate == states[0].sample_rate,
        states.last().next_id == states[0].next_id,
    decreases chunks.len(),
{
    if chunks.len() == 0 {
        assert(states[0].audio@ + decoded_audio(chunks) =~= states[0].audio@);
    } else {
        let n = chunks.len() as int;
        law_pushes_accumulate(states.drop_last(), chunks.drop_last(), id);
        assert(push_effect(states[n - 1], states[n], id, chunks[n - 1], Ok(())));
        assert(states.drop_last().last() == states[n - 1]);
        assert(states.drop_last()[0] == states[0]);
        assert(chunks.last() == chunks[n - 1]);
        assert(states[n].audio@ =~= states[0].audio@ + decoded_audio(chunks));
    }
}

/// A session hands back what was pushed into it: a session opened at
/// `sample_rate`, fed the chunks `chunks` (each accepted) and then finished,
/// yields exactly the samples of those chunks in order, at `sample_rate`.
pub proof fn law_session_round_trip(
    opened: SessionBuffer,
    states: Seq<SessionBuffer>,
    chunks: Seq<Seq<char>>,
    closed: SessionBuffer,
    before: SessionBuffer,
    sample_rate: u32,
    id: u64,
    samples: Seq<i16>,
    rate: u32,
)
    requires
        start_effect(before, opened, sample_rate, id),
        states.len() == chunks.len() + 1,
        states[0] == opened,
        forall|i: int|
            0 <= i < chunks.len() ==> push_effect(
                #[trigger] states[i],
                states[i + 1],
                id,
                chunks[i],
                Ok(()),
            ),
        finish_effect(states.last(), closed, id, Ok((samples, rate))),
    ensures
        samples == decoded_audio(chunks),
        rate == sample_rate,
        closed.current is None,
{
    law_pushes_accumulate(states, chunks, id);
    assert(opened.audio@ + decoded_audio(chunks) =~= decoded_audio(chunks));
}

/// The samples that the valid chunk `b64` carries.
pub open spec fn chunk_samples(b64: Seq<char>) -> Seq<i16> {
    pcm_s16le_samples(standard_base64_decode(b64).unwrap())
}

/// A refused push changes nothing: whether the session is missing, another
/// session is named, the chunk is not base64 or has an odd number of bytes,
/// the session after the push is the session before it.
pub proof fn law_refused_push_changes_nothing(
    old: SessionBuffer,
    new: SessionBuffer,
    session_id: u64,
    b64: Seq<char>,
    r: Result<(), SttError>,
)
    requires
        push_effect(old, new, session_id, b64, r),
        r is Err,
    ensures
        new == old,
{
}

/// An accepted push keeps the audio already in the session and adds the
/// chunk's samples after it, changing nothing else.
pub proof fn law_accepted_push_appends(
    old: SessionBuffer,
    new: SessionBuffer,
    session_id: u64,
    b64: Seq<char>,
)
    requires
        push_effect(old, new, session_id, b64, Ok(())),
    ensures
        standard_base64_decode(b64) is Some,
        standard_base64_decode(b64).unwrap().len() % 2 == 0,
        new.audio@ == old.audio@ + chunk_samples(b64),
        chunk_samples(b64).len() == standard_base64_decode(b64).unwrap().len() / 2,
        new.current == old.current,
        new.sample_rate == old.sample_rate,
        new.next_id == old.next_id,
{
}

/// A refused chunk between two accepted ones leaves no trace: the session
/// then holds its earlier audio followed by the two accepted chunks' samples.
pub proof fn law_refused_push_between_accepted(
    s0: SessionBuffer,
    s1: SessionBuffer,
    s2: SessionBuffer,
    s3: SessionBuffer,
    session_id: u64,
    first: Seq<char>,
    refused: Seq<char>,
    refusal: Result<(), SttError>,
    last: Seq<char>,
)
    requires
        push_effect(s0, s1, session_id, first, Ok(())),
        push_effect(s1, s2, session_id, refused, refusal),
        refusal is Err,
        push_effect(s2, s3, session_id, last, Ok(())),
    ensures
        s3.audio@ == s0.audio@ + chunk_samples(first) + chunk_samples(last),
{
    law_refused_push_changes_nothing(s1, s2, session_id, refused, refusal);
    law_accepted_push_appends(s0, s1, session_id, first);
    law_accepted_push_appends(s2, s3, session_id, last);
    assert(s3.audio@ =~= s0.audio@ + chunk_samples(first) + chunk_samples(last));
}

/// A finished session stays closed: once `finish` has run on an open
/// session, whatever its outcome, pushing into any session is refused with
/// `NoActiveSession`, and so is finishing again.
pub proof fn law_finished_session_is_closed(
    s0: SessionBuffer,
    s1: SessionBuffer,
    s2: SessionBuffer,
    id: u64,
    r: Result<(Seq<i16>, u32), SttError>,
    other_id: u64,
    b64: Seq<char>,
    pushed: Result<(), SttError>,
    s3: SessionBuffer,
    finished: Result<(Seq<i16>, u32), SttError>,
)
    requires
        s0.current is Some,
        finish_effect(s0, s1, id, r),
        push_effect(s1, s2, other_id, b64, pushed),
        finish_effect(s1, s3, other_id, finished),
    ensures
        pushed matches Err(SttError::NoActiveSession),
        finished matches Err(SttError::NoActiveSession),
{
}

/// How pushing the chunk `b64` into session `session_id` takes `old` to
/// `new` with outcome `r`.
pub open spec fn push_effect(
    old: SessionBuffer,
    new: SessionBuffer,
    session_id: u64,
    b64: Seq<char>,
    r: Result<(), SttError>,
) -> bool {
    match old.current {
        None => (r matches Err(SttError::NoActiveSession)) && new == old,
        Some(c) => if c != session_id {
            (r matches Err(SttError::SessionMismatch)) && new == old
        } else {
            match standard_base64_decode(b64) {
                None => (r matches Err(SttError::InvalidBase64(_))) && new == old,
                Some(bytes) => if bytes.len() % 2 == 1 {
                    (r matches Err(SttError::InvalidPcmLength)) && new == old
                } else {
                    &&& r is Ok
                    &&& new.audio@ == old.audio@ + pcm_s16le_samples(bytes)
                    &&& new.current == old.current
                    &&& new.sample_rate == old.sample_rate
                    &&& new.next_id == old.next_id
                },
            }
        },
    }
}

/// How finishing session `session_id` takes `old` to `new` with outcome `r`:
/// the samples and sample rate handed back, or the error.
pub open spec fn finish_effect(
    old: SessionBuffer,
    new: SessionBuffer,
    session_id: u64,
    r: Result<(Seq<i16>, u32), SttError>,
) -> bool {
    match old.current {
        None => (r matches Err(SttError::NoActiveSession)) && new == old,
        Some(c) => if c != session_id {
            &&& r matches Err(SttError::SessionMismatch)
            &&& new.current is None
            &&& new.audio == old.audio
            &&& new.sample_rate == old.sample_rate
            &&& new.next_id == old.next_id
        } else {
            &&& r == Ok::<(Seq<i16>, u32), SttError>(
                (
                    old.audio@,
                    match old.sample_rate {
                        Some(sr) => sr,
                        None => DEFAULT_SAMPLE_RATE,
                    },
                ),
            )
            &&& new.current is None
            &&& new.audio@.len() == 0
            &&& new.sample_rate is None
            &&& new.next_id == old.next_id
        },
    }
}

impl SessionBuffer {
    /// No session open; the first one gets id 1.
    pub fn new() -> (s: Self)
        ensures
            s.current is None,
            s.audio@.len() == 0,
            s.sample_rate is None,
            s.next_id == 1,
    {
        SessionBuffer { current: None, audio: Vec::new(), sample_rate: None, next_id: 1 }
    }

    /// Opens a new session at `sample_rate`, dropping any open one and its
    /// audio, and returns its id.
    pub fn start(&mut self, sample_rate: u32) -> (id: u64)
        ensures
            start_effect(*old(self), *final(self), sample_rate, id),
    {
        let id = self.next_id;
        self.next_id = if id == u64::MAX {
            0
        } else {
            id + 1
        };
        self.current = Some(id);
        self.sample_rate = Some(sample_rate);
        self.audio.clear();
        id
    }

    /// Appends a base64-encoded 16-bit little-endian PCM chunk to the open
    /// session `session_id`.
    pub fn push_base64(&mut self, session_id: u64, b64: &str) -> (r: Result<(), SttError>)
        ensures
            push_effect(*old(self), *final(self), session_id, b64@, r),
            r is Err ==> *final(self) == *old(self),
            r is Ok ==> final(self).audio@.len() >= old(self).audio@.len()
                && final(self).audio@.subrange(0, old(self).audio@.len() as int) == old(self).audio@,
    {
        match self.current {
            None => {
                return Err(SttError::NoActiveSession);
            },
            Some(c) => {
                if c != session_id {
                    return Err(SttError::SessionMismatch);
                }
            },
        }
        let bytes = match decode_standard_base64(b64) {
            Ok(bytes) => bytes,
            Err(e) => {
                return Err(SttError::InvalidBase64(describe_decode_error(&e)));
            },
        };
        if bytes.len() % 2 != 0 {
            return Err(SttError::InvalidPcmLength);
        }
        append_pcm_s16le(&bytes, &mut self.audio);
        Ok(())
    }

    /// Closes the session `session_id` and hands back its audio and sample
    /// rate. The open session is closed even when `session_id` names another
    /// one; its audio then stays until the next session starts.
    pub fn finish(&mut self, session_id: u64) -> (r: Result<(Vec<i16>, u32), SttError>)
        ensures
            finish_effect(
                *old(self),
                *final(self),
                session_id,
                match r {
                    Ok((samples, rate)) => Ok((samples@, rate)),
                    Err(e) => Err(e),
                },
            ),
    {
        let cur = match self.current.take() {
            Some(c) => c,
            None => {
                return Err(SttError::NoActiveSession);
            },
        };
        if cur != session_id {
            return Err(SttError::SessionMismatch);
        }
        let rate = match self.sample_rate.take() {
            Some(sr) => sr,
            None => DEFAULT_SAMPLE_RATE,
        };
        let mut samples: Vec<i16> = Vec::new();
        std::mem::swap(&mut samples, &mut self.audio);
        Ok((samples, rate))
    }
}

} // verus!
