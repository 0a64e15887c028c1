//! Accumulates speech frames from VAD-gated chunks.
//!
//! The dual-stream design sends short VAD chunks to speech-swift as soon as
//! about 2 s of speech has built up (fast path) and, in parallel, collects the
//! same speech so that a longer clip can be sent for accurate diarization with
//! cross-speaker context (slow path). Only speech is counted: no silence pad.

use vstd::prelude::*;

use std::time::{Duration, Instant};

verus! {

/// Samples per second of every accumulated frame (16 kHz mono).
pub const SAMPLES_PER_SEC: u64 = 16_000;

/// Trigger a slow-path clip after this much accumulated speech (10 s).
pub const SPEECH_TRIGGER_SAMPLES: u64 = 160_000;

/// Minimum speech before a fast-path clip is sent (2 s): speech-swift needs
/// at least 2 s of audio to run speaker recognition.
pub const FAST_SPEECH_TRIGGER_SAMPLES: u64 = 32_000;

#[verifier::external_type_specification]
#[verifier::external_body]
pub struct ExInstant(Instant);

/// Reads the monotonic clock (`std::time::Instant::now`). Nothing is stated
/// of the instant returned.
#[verifier::external_body]
fn instant_now() -> Instant {
    Instant::now()
}

/// The time elapsed since `t` (`std::time::Instant::elapsed`). It depends on
/// the clock, so nothing is stated of it.
#[verifier::external_body]
fn instant_elapsed(t: &Instant) -> Duration {
    t.elapsed()
}

/// Whether `d >= bound` (`PartialOrd` of `std::time::Duration`). Durations
/// are opaque here, so nothing is stated of the answer.
#[verifier::external_body]
fn duration_at_least(d: &Duration, bound: &Duration) -> bool {
    *d >= *bound
}

/// Milliseconds of audio in `samples` samples at 16 kHz (rounded down).
pub open spec fn audio_ms(samples: int) -> int {
    samples * 1_000 / 16_000
}

/// Records where a single fast-path chunk lands in the session timeline, so
/// that slow-path results, whose timestamps are relative to the concatenated
/// speech clip, can be mapped back to session time.
#[derive(Clone, Copy, Debug, PartialEq, Eq)]
pub struct AppendedChunk {
    /// Session-relative start time for this chunk (ms).
    pub session_start_ms: u64,
    /// Offset (ms) of this chunk's first frame within the concatenated clip.
    pub audio_start_ms: u64,
    /// Offset (ms) of this chunk's last frame within the concatenated clip.
    pub audio_end_ms: u64,
}

/// A drained clip ready for processing.
pub struct AccumulatorClip<S> {
    /// Speech-only samples at 16 kHz mono.
    pub frames: Vec<S>,
    /// Per-chunk timing map of the clip.
    pub chunks: Vec<AppendedChunk>,
    /// Session-relative start of this clip in milliseconds.
    pub clip_start_ms: u64,
    /// Session-relative end of this clip in milliseconds.
    pub clip_end_ms: u64,
}

/// The chunk map tiles the clip: the first chunk starts at offset 0, each
/// chunk starts where the previous one ended, and the last one ends at the
/// clip's length.
pub open spec fn chunks_tile(chunks: Seq<AppendedChunk>, frames_len: int) -> bool {
    chunks.len() > 0 ==> {
        &&& chunks[0].audio_start_ms == 0
        &&& chunks.last().audio_end_ms == audio_ms(frames_len)
        &&& forall|i: int|
            0 <= i < chunks.len() - 1 ==> #[trigger] chunks[i].audio_end_ms == chunks[i
                + 1].audio_start_ms
        &&& forall|i: int|
            0 <= i < chunks.len() ==> #[trigger] chunks[i].audio_start_ms
                <= chunks[i].audio_end_ms
    }
}

/// Whether an inactivity flush is due, given whether any speech is buffered
/// and whether the inactivity timeout has passed since the last append
/// (`None` when nothing was ever appended).
pub fn inactivity_flush_due(has_speech: bool, timeout_passed: Option<bool>) -> (due: bool)
    ensures
        due == (has_speech && timeout_passed == Some(true)),
{
    has_speech && match timeout_passed {
        Some(passed) => passed,
        None => false,
    }
}

/// The timing record of a chunk of `frames_len` samples appended to `acc`
/// at session time `start_ms`.
pub open spec fn chunk_for_append<S>(acc: SpeechAccumulator<S>, frames_len: int, start_ms: u64) -> AppendedChunk {
    AppendedChunk {
        session_start_ms: start_ms,
        audio_start_ms: audio_ms(acc.frames@.len() as int) as u64,
        audio_end_ms: audio_ms(acc.frames@.len() + frames_len) as u64,
    }
}

/// `after` is `before` with the chunk `frames` (session time
/// `start_ms..end_ms`) appended: its frames follow the buffered ones, the
/// clip keeps its first start and takes the new end, and the chunk map gains
/// the chunk's record.
pub open spec fn appended<S>(
    before: SpeechAccumulator<S>,
    after: SpeechAccumulator<S>,
    frames: Seq<S>,
    start_ms: u64,
    end_ms: u64,
) -> bool {
    &&& after.frames@ == before.frames@ + frames
    &&& after.chunks@ == before.chunks@.push(chunk_for_append(before, frames.len() as int, start_ms))
    &&& after.clip_start_ms == (match before.clip_start_ms {
        Some(s) => Some(s),
        None => Some(start_ms),
    })
    &&& after.clip_end_ms == Some(end_ms)
    &&& after.last_append_at is Some
}

/// `clip` holds everything `acc` buffered.
pub open spec fn drained_into<S>(acc: SpeechAccumulator<S>, clip: AccumulatorClip<S>) -> bool {
    &&& clip.frames@ == acc.frames@
    &&& clip.chunks@ == acc.chunks@
    &&& acc.clip_start_ms == Some(clip.clip_start_ms)
    &&& acc.clip_end_ms == Some(clip.clip_end_ms)
}

/// `clip` holds everything `before` buffered plus the chunk `frames`
/// (session time `start_ms..end_ms`) appended to it.
pub open spec fn drained_after_append<S>(
    before: SpeechAccumulator<S>,
    frames: Seq<S>,
    start_ms: u64,
    end_ms: u64,
    clip: AccumulatorClip<S>,
) -> bool {
    &&& clip.frames@ == before.frames@ + frames
    &&& clip.chunks@ == before.chunks@.push(chunk_for_append(before, frames.len() as int, start_ms))
    &&& Some(clip.clip_start_ms) == (match before.clip_start_ms {
        Some(s) => Some(s),
        None => Some(start_ms),
    })
    &&& clip.clip_end_ms == end_ms
}

/// Collects speech frames and the timing of the chunks they came from.
pub struct SpeechAccumulator<S> {
    /// Speech-only samples (16 kHz mono).
    pub frames: Vec<S>,
    /// Time of the last `append`; used for inactivity detection.
    pub last_append_at: Option<Instant>,
    /// Session offset (ms) of the first chunk appended since the last drain.
    pub clip_start_ms: Option<u64>,
    /// Session offset (ms) of the end of the last appended chunk.
    pub clip_end_ms: Option<u64>,
    /// Timing of every chunk appended since the last drain.
    pub chunks: Vec<AppendedChunk>,
}

impl<S: Copy> Default for SpeechAccumulator<S> {
    /// An empty accumulator, as `new` makes it.
    fn default() -> (a: Self)
        ensures
            a.wf(),
            a.is_reset(),
    {
        Self::new()
    }
}

impl<S: Copy> SpeechAccumulator<S> {
    pub open spec fn wf(&self) -> bool {
        &&& self.frames@.len() > 0 ==> self.clip_start_ms is Some && self.clip_end_ms is Some
        &&& self.chunks@.len() > 0 ==> self.clip_start_ms is Some && self.clip_end_ms is Some
        &&& self.chunks@.len() == 0 ==> self.frames@.len() == 0
        &&& self.chunks@.len() == 0 ==> self.clip_start_ms is None && self.clip_end_ms is None
        &&& self.chunks@.len() > 0 ==> self.clip_start_ms == Some(self.chunks@[0].session_start_ms)
        &&& chunks_tile(self.chunks@, self.frames@.len() as int)
    }

    /// An accumulator with nothing buffered.
    pub open spec fn is_reset(&self) -> bool {
        &&& self.frames@.len() == 0
        &&& self.chunks@.len() == 0
        &&& self.clip_start_ms is None
        &&& self.clip_end_ms is None
        &&& self.last_append_at is None
    }

    pub fn new() -> (a: Self)
        ensures
            a.wf(),
            a.is_reset(),
    {
        SpeechAccumulator {
            frames: Vec::new(),
            last_append_at: None,
            clip_start_ms: None,
            clip_end_ms: None,
            chunks: Vec::new(),
        }
    }

    /// Append the speech-only samples of one VAD chunk whose session
    /// position is `chunk_start_ms..chunk_end_ms`.
    pub fn append(&mut self, speech_only: Vec<S>, chunk_start_ms: u64, chunk_end_ms: u64)
        requires
            old(self).wf(),
            old(self).frames@.len() + speech_only@.len() <= u64::MAX / 1_000,
        ensures
            final(self).wf(),
            appended(*old(self), *final(self), speech_only@, chunk_start_ms, chunk_end_ms),
    {
        if self.clip_start_ms.is_none() {
            self.clip_start_ms = Some(chunk_start_ms);
        }
        self.clip_end_ms = Some(chunk_end_ms);
        let len_before = self.frames.len() as u64;
        let audio_start_ms = len_before * 1_000 / 16_000;
        let mut i: usize = 0;
        while i < speech_only.len()
            invariant
                i <= speech_only@.len(),
                self.frames@ == old(self).frames@ + speech_only@.take(i as int),
                self.chunks@ == old(self).chunks@,
                self.clip_start_ms is Some,
                self.clip_start_ms == (match old(self).clip_start_ms {
                    Some(s) => Some(s),
                    None => Some(chunk_start_ms),
                }),
                self.clip_end_ms == Some(chunk_end_ms),
                len_before == old(self).frames@.len(),
            decreases speech_only@.len() - i,
        {
            self.frames.push(speech_only[i]);
            i = i + 1;
            assert(speech_only@.take(i as int) =~= speech_only@.take(i - 1).push(speech_only@[i - 1]));
        }
        assert(speech_only@.take(i as int) =~= speech_only@);
        let len_after = self.frames.len() as u64;
        let audio_end_ms = len_after * 1_000 / 16_000;
        assert(audio_start_ms <= audio_end_ms) by (nonlinear_arith)
            requires
                len_before <= len_after,
                audio_start_ms == len_before * 1_000 / 16_000,
                audio_end_ms == len_after * 1_000 / 16_000,
        ;
        self.last_append_at = Some(instant_now());
        let ghost old_chunks = self.chunks@;
        self.chunks.push(
            AppendedChunk { session_start_ms: chunk_start_ms, audio_start_ms, audio_end_ms },
        );
        assert forall|i: int| 0 <= i < self.chunks@.len() - 1 implies #[trigger] self.chunks@[i].audio_end_ms
            == self.chunks@[i + 1].audio_start_ms by {
            if i < old_chunks.len() - 1 {
                assert(self.chunks@[i] == old_chunks[i]);
                assert(self.chunks@[i + 1] == old_chunks[i + 1]);
            } else {
                assert(self.chunks@[i] == old_chunks.last());
            }
        }
        assert(audio_start_ms == audio_ms(old(self).frames@.len() as int));
    }

    /// Number of speech samples accumulated since the last drain.
    pub fn speech_samples(&self) -> (n: u64)
        requires
            self.frames@.len() <= u64::MAX,
        ensures
            n == self.frames@.len(),
    {
        self.frames.len() as u64
    }

    /// Whether enough speech (10 s) has accumulated to justify a slow-path
    /// clip.
    pub fn should_trigger(&self) -> (b: bool)
        ensures
            b == (self.frames@.len() >= SPEECH_TRIGGER_SAMPLES),
    {
        self.frames.len() as u64 >= SPEECH_TRIGGER_SAMPLES
    }

    /// Whether no new audio has arrived for at least `timeout` while speech
    /// is buffered. The answer depends on the clock; it can only be `true`
    /// when speech is buffered and something was appended.
    pub fn should_flush_for_inactivity(&self, timeout: Duration) -> (b: bool)
        ensures
            b ==> self.frames@.len() > 0 && self.last_append_at is Some,
    {
        let timeout_passed = match &self.last_append_at {
            Some(t) => {
                let elapsed = instant_elapsed(t);
                Some(duration_at_least(&elapsed, &timeout))
            },
            None => None,
        };
        inactivity_flush_due(!self.is_empty(), timeout_passed)
    }

    /// Whether no frames have been accumulated since the last drain.
    pub fn is_empty(&self) -> (b: bool)
        ensures
            b == (self.frames@.len() == 0),
    {
        self.frames.len() == 0
    }

    /// Take all accumulated frames and timing metadata, resetting the
    /// accumulator. Returns `None` (and changes nothing) when no frames are
    /// buffered.
    pub fn drain(&mut self) -> (r: Option<AccumulatorClip<S>>)
        requires
            old(self).wf(),
        ensures
            final(self).wf(),
            old(self).frames@.len() == 0 ==> r is None && *final(self) == *old(self),
            old(self).frames@.len() > 0 ==> final(self).is_reset() && (r matches Some(clip)
                && drained_into(*old(self), clip)),
    {
        if self.frames.len() == 0 {
            return None;
        }
        let mut frames = Vec::new();
        std::mem::swap(&mut frames, &mut self.frames);
        let mut chunks = Vec::new();
        std::mem::swap(&mut chunks, &mut self.chunks);
        let clip_start_ms = self.clip_start_ms.take();
        let clip_end_ms = self.clip_end_ms.take();
        self.last_append_at = None;
        Some(
            AccumulatorClip {
                frames,
                chunks,
                clip_start_ms: clip_start_ms.unwrap(),
                clip_end_ms: clip_end_ms.unwrap(),
            },
        )
    }
}

} // verus!
