//! Decisions of the capture pipeline: how VAD chunks feed the fast-path and
//! slow-path accumulators, when each path fires, and how slow-path timestamps
//! map back onto the session timeline.
//!
//! The pipeline itself (network, database, timers) runs outside; it hands
//! each event to a `CapturePipeline` and performs the action it returns.

use vstd::prelude::*;

use std::time::Duration;

use crate::audio::accumulator::{
    appended, drained_after_append, drained_into, AccumulatorClip, AppendedChunk,
    SpeechAccumulator, FAST_SPEECH_TRIGGER_SAMPLES, SPEECH_TRIGGER_SAMPLES,
};
use crate::audio::vad::extend_from_prefix;

verus! {

/// Session time of the first chunk that contains clip offset `t`, if any.
pub open spec fn map_in_chunks(chunks: Seq<AppendedChunk>, t: int) -> Option<int>
    decreases chunks.len(),
{
    if chunks.len() == 0 {
        None
    } else if chunks[0].audio_start_ms <= t < chunks[0].audio_end_ms {
        Some(chunks[0].session_start_ms + (t - chunks[0].audio_start_ms))
    } else {
        map_in_chunks(chunks.drop_first(), t)
    }
}

/// Session time (ms) of a timestamp `t` given relative to the start of a
/// clip built from `chunks` (silence stripped).
///
/// The chunk whose audio span contains `t` gives the answer; a timestamp
/// past every chunk (such as the end of the last one) is extrapolated from
/// the last chunk; with no chunk at all, `t` is added to the clip start
/// (saturating).
pub open spec fn spec_audio_to_session_ms(chunks: Seq<AppendedChunk>, clip_start_ms: int, t: int) -> int {
    match map_in_chunks(chunks, t) {
        Some(ms) => ms,
        None => if chunks.len() > 0 {
            let last = chunks.last();
            last.session_start_ms + (if t >= last.audio_start_ms { t - last.audio_start_ms } else { 0 })
        } else if clip_start_ms + t <= u64::MAX {
            clip_start_ms + t
        } else {
            u64::MAX as int
        },
    }
}

/// When the chunk map tiles the clip (each chunk starting where the previous
/// one ended), a timestamp inside chunk `i` maps to that chunk's session
/// start plus the offset into the chunk.
pub proof fn lemma_timestamp_in_chunk_maps_into_it(chunks: Seq<AppendedChunk>, clip_start_ms: int, i: int, t: int)
    requires
        0 <= i < chunks.len(),
        forall|k: int| 0 <= k < chunks.len() - 1 ==> #[trigger] chunks[k].audio_end_ms == chunks[k + 1].audio_start_ms,
        forall|k: int| 0 <= k < chunks.len() ==> #[trigger] chunks[k].audio_start_ms <= chunks[k].audio_end_ms,
        chunks[i].audio_start_ms <= t < chunks[i].audio_end_ms,
    ensures
        spec_audio_to_session_ms(chunks, clip_start_ms, t) == chunks[i].session_start_ms + (t
            - chunks[i].audio_start_ms),
{
    lemma_map_in_chunks_at(chunks, i, t);
}

proof fn lemma_map_in_chunks_at(chunks: Seq<AppendedChunk>, i: int, t: int)
    requires
        0 <= i < chunks.len(),
        forall|k: int| 0 <= k < chunks.len() - 1 ==> #[trigger] chunks[k].audio_end_ms == chunks[k + 1].audio_start_ms,
        forall|k: int| 0 <= k < chunks.len() ==> #[trigger] chunks[k].audio_start_ms <= chunks[k].audio_end_ms,
        chunks[i].audio_start_ms <= t < chunks[i].audio_end_ms,
    ensures
        map_in_chunks(chunks, t) == Some(chunks[i].session_start_ms + (t - chunks[i].audio_start_ms)),
    decreases i,
{
    if i > 0 {
        // Chunk 0 ends no later than chunk i starts, so it does not hold t.
        assert(chunks[0].audio_end_ms <= chunks[i].audio_start_ms) by {
            lemma_tiled_ends_before(chunks, 0, i);
        }
        let rest = chunks.drop_first();
        assert forall|k: int| 0 <= k < rest.len() - 1 implies #[trigger] rest[k].audio_end_ms
            == rest[k + 1].audio_start_ms by {
            assert(rest[k] == chunks[k + 1]);
            assert(rest[k + 1] == chunks[k + 2]);
        }
        assert forall|k: int| 0 <= k < rest.len() implies #[trigger] rest[k].audio_start_ms
            <= rest[k].audio_end_ms by {
            assert(rest[k] == chunks[k + 1]);
        }
        lemma_map_in_chunks_at(rest, i - 1, t);
    }
}

proof fn lemma_tiled_ends_before(chunks: Seq<AppendedChunk>, j: int, i: int)
    requires
        0 <= j < i < chunks.len(),
        forall|k: int| 0 <= k < chunks.len() - 1 ==> #[trigger] chunks[k].audio_end_ms == chunks[k + 1].audio_start_ms,
        forall|k: int| 0 <= k < chunks.len() ==> #[trigger] chunks[k].audio_start_ms <= chunks[k].audio_end_ms,
    ensures
        chunks[j].audio_end_ms <= chunks[i].audio_start_ms,
    decreases i - j,
{
    if j + 1 < i {
        lemma_tiled_ends_before(chunks, j + 1, i);
        assert(chunks[j + 1].audio_start_ms <= chunks[j + 1].audio_end_ms);
    }
}

/// Map a clip-relative timestamp (ms) back to session time (ms).
pub fn audio_to_session_ms(chunks: &[AppendedChunk], clip_start_ms: u64, seg_audio_ms: u64) -> (ms: u64)
    requires
        spec_audio_to_session_ms(chunks@, clip_start_ms as int, seg_audio_ms as int) <= u64::MAX,
    ensures
        ms == spec_audio_to_session_ms(chunks@, clip_start_ms as int, seg_audio_ms as int),
{
    let mut i: usize = 0;
    assert(chunks@.skip(0) =~= chunks@);
    while i < chunks.len()
        invariant
            i <= chunks@.len(),
            spec_audio_to_session_ms(chunks@, clip_start_ms as int, seg_audio_ms as int) <= u64::MAX,
            map_in_chunks(chunks@, seg_audio_ms as int) == map_in_chunks(chunks@.skip(i as int), seg_audio_ms as int),
        decreases chunks@.len() - i,
    {
        let ch = chunks[i];
        assert(chunks@.skip(i as int)[0] == ch);
        assert(chunks@.skip(i as int).drop_first() =~= chunks@.skip(i + 1));
        if ch.audio_start_ms <= seg_audio_ms && seg_audio_ms < ch.audio_end_ms {
            assert(map_in_chunks(chunks@.skip(i as int), seg_audio_ms as int) == Some(
                ch.session_start_ms + (seg_audio_ms - ch.audio_start_ms),
            ));
            return ch.session_start_ms + (seg_audio_ms - ch.audio_start_ms);
        }
        i = i + 1;
    }
    assert(chunks@.skip(i as int) =~= Seq::<AppendedChunk>::empty());
    if chunks.len() > 0 {
        let last = chunks[chunks.len() - 1];
        let offset = if seg_audio_ms >= last.audio_start_ms { seg_audio_ms - last.audio_start_ms } else { 0 };
        last.session_start_ms + offset
    } else {
        clip_start_ms.saturating_add(seg_audio_ms)
    }
}

/// Note that a voice sample of `speaker_id` is about to be stored for the
/// current slow-path clip, where `sampled` lists the speakers already
/// sampled in it. Returns whether this is the speaker's first sample in the
/// clip; only then is a sample stored, so each speaker gets one per clip.
pub fn first_sample_in_clip(sampled: &mut Vec<i64>, speaker_id: i64) -> (first: bool)
    ensures
        first == !old(sampled)@.contains(speaker_id),
        final(sampled)@ == (if first { old(sampled)@.push(speaker_id) } else { old(sampled)@ }),
        old(sampled)@.no_duplicates() ==> final(sampled)@.no_duplicates(),
{
    let mut i: usize = 0;
    while i < sampled.len()
        invariant
            i <= sampled@.len(),
            forall|k: int| 0 <= k < i ==> sampled@[k] != speaker_id,
        decreases sampled@.len() - i,
    {
        if sampled[i] == speaker_id {
            return false;
        }
        i = i + 1;
    }
    let ghost before = sampled@;
    sampled.push(speaker_id);
    assert forall|a: int, b: int| 0 <= a < b < sampled@.len() && before.no_duplicates() implies sampled@[a] != sampled@[b] by {
        if b == before.len() {
            assert(before[a] != speaker_id);
        }
    }
    true
}

/// What the pipeline should do next.
pub enum PipelineAction<S> {
    /// Nothing to send.
    Idle,
    /// Send this fast-path clip; record the segment ids it produces with
    /// `record_fast_segments`.
    RunFastPath { clip: AccumulatorClip<S> },
    /// Send this slow-path clip; its results replace the fast-path segments
    /// `fast_segment_ids`.
    RunSlowPath { clip: AccumulatorClip<S>, fast_segment_ids: Vec<i64> },
}

/// The decisions taken when a VAD chunk arrives.
pub struct ChunkStep<S> {
    /// Start the fast-path debounce timer (500 ms) now.
    pub arm_debounce: bool,
    pub action: PipelineAction<S>,
}

/// Conversation state of one recording session: the fast-path and slow-path
/// accumulators, the fast-path segments awaiting replacement by the slow
/// path, and whether the fast-path debounce timer is running.
pub struct CapturePipeline<S> {
    pub fast: SpeechAccumulator<S>,
    pub slow: SpeechAccumulator<S>,
    /// Fast-path segment ids produced since the last slow-path clip.
    pub pending_fast_segment_ids: Vec<i64>,
    /// Whether the fast-path debounce deadline is set.
    pub fast_debounce_armed: bool,
}

/// Copy a vector of `Copy` values.
fn copy_vec<S: Copy>(v: &Vec<S>) -> (r: Vec<S>)
    ensures
        r@ == v@,
{
    let mut r: Vec<S> = Vec::new();
    extend_from_prefix(&mut r, v.as_slice(), v.len());
    assert(v@.take(v@.len() as int) =~= v@);
    r
}

/// The slow path fired, leaving `new`: the fast-path audio it covers was
/// discarded, the debounce was cancelled, both accumulators are empty, and
/// the fast-path segments pending before were handed over for replacement.
pub open spec fn slow_path_fired<S: Copy>(pending_before: Seq<i64>, new: CapturePipeline<S>, fast_segment_ids: Seq<i64>) -> bool {
    &&& fast_segment_ids == pending_before
    &&& new.fast.is_reset()
    &&& new.slow.is_reset()
    &&& new.pending_fast_segment_ids@.len() == 0
    &&& !new.fast_debounce_armed
}

/// How long the slow accumulator may go without new speech before an
/// inactivity check flushes it (the speaker may have left).
pub const INACTIVITY_TIMEOUT_SECS: u64 = 10;

/// How long the fast accumulator may go without new speech before an
/// inactivity check flushes it.
pub const FAST_INACTIVITY_TIMEOUT_SECS: u64 = 20;

/// What an inactivity check does, given whether each accumulator has been
/// idle for the timeout: an idle slow accumulator holding any speech is sent
/// through the slow path, which covers the fast one; otherwise an idle fast
/// accumulator holding at least 2 s of speech is sent through the fast path;
/// otherwise nothing changes.
pub open spec fn idle_outcome<S: Copy>(
    old: CapturePipeline<S>,
    new: CapturePipeline<S>,
    action: PipelineAction<S>,
    slow_idle: bool,
    fast_idle: bool,
) -> bool {
    let slow_due = slow_idle && old.slow.frames@.len() > 0;
    let fast_due = fast_idle && old.fast.frames@.len() >= FAST_SPEECH_TRIGGER_SAMPLES;
    if slow_due {
        action matches PipelineAction::RunSlowPath { clip, fast_segment_ids } && slow_path_fired(
            old.pending_fast_segment_ids@,
            new,
            fast_segment_ids@,
        ) && drained_into(old.slow, clip) && old.fast.frames@.is_suffix_of(clip.frames@)
    } else if fast_due {
        &&& action matches PipelineAction::RunFastPath { clip } && drained_into(old.fast, clip)
        &&& new.fast.is_reset()
        &&& !new.fast_debounce_armed
        &&& new.slow == old.slow
        &&& new.pending_fast_segment_ids == old.pending_fast_segment_ids
    } else {
        &&& action is Idle
        &&& new == old
    }
}

impl<S: Copy> CapturePipeline<S> {
    /// Both accumulators receive the same chunks; the fast one is drained
    /// more often, so its frames are always the tail of the slow one's.
    pub open spec fn fast_covered_by_slow(&self) -> bool {
        self.fast.frames@.is_suffix_of(self.slow.frames@)
    }

    pub open spec fn wf(&self) -> bool {
        &&& self.fast.wf()
        &&& self.slow.wf()
        &&& self.fast_covered_by_slow()
        &&& self.fast_debounce_armed ==> self.fast.frames@.len() >= FAST_SPEECH_TRIGGER_SAMPLES
    }

    pub fn new() -> (p: Self)
        ensures
            p.wf(),
            p.fast.is_reset(),
            p.slow.is_reset(),
            p.pending_fast_segment_ids@.len() == 0,
            !p.fast_debounce_armed,
    {
        let p = CapturePipeline {
            fast: SpeechAccumulator::new(),
            slow: SpeechAccumulator::new(),
            pending_fast_segment_ids: Vec::new(),
            fast_debounce_armed: false,
        };
        assert(p.fast.frames@.is_suffix_of(p.slow.frames@));
        p
    }

    /// Discard the fast accumulator and cancel its debounce, then drain the
    /// slow accumulator into a slow-path job (clear-and-cover).
    fn fire_slow_path(&mut self) -> (action: PipelineAction<S>)
        requires
            old(self).wf(),
            old(self).slow.frames@.len() > 0,
        ensures
            final(self).wf(),
            action matches PipelineAction::RunSlowPath { clip, fast_segment_ids } && slow_path_fired(
                old(self).pending_fast_segment_ids@,
                *final(self),
                fast_segment_ids@,
            ) && drained_into(old(self).slow, clip),
    {
        self.fast_debounce_armed = false;
        // The fast accumulator's audio is covered by the slow clip: discard it.
        self.fast = SpeechAccumulator::new();
        let clip = self.slow.drain().unwrap();
        let mut fast_segment_ids = Vec::new();
        std::mem::swap(&mut fast_segment_ids, &mut self.pending_fast_segment_ids);
        assert(self.fast.frames@.is_suffix_of(self.slow.frames@));
        PipelineAction::RunSlowPath { clip, fast_segment_ids }
    }

    /// A VAD chunk arrived: append it to both accumulators, arm the fast-path
    /// debounce when the fast accumulator first reaches 2 s of speech, and
    /// fire the slow path when the slow accumulator reaches 10 s of speech.
    pub fn on_chunk(&mut self, speech_frames: Vec<S>, start_ms: u64, end_ms: u64) -> (step: ChunkStep<S>)
        requires
            old(self).wf(),
            old(self).slow.frames@.len() + speech_frames@.len() <= u64::MAX / 1_000,
        ensures
            final(self).wf(),
            ({
                let slow_after = old(self).slow.frames@ + speech_frames@;
                if slow_after.len() >= SPEECH_TRIGGER_SAMPLES {
                    &&& !step.arm_debounce
                    &&& step.action matches PipelineAction::RunSlowPath { clip, fast_segment_ids }
                        && slow_path_fired(
                        old(self).pending_fast_segment_ids@,
                        *final(self),
                        fast_segment_ids@,
                    ) && drained_after_append(old(self).slow, speech_frames@, start_ms, end_ms, clip)
                        && (old(self).fast.frames@ + speech_frames@).is_suffix_of(clip.frames@)
                } else {
                    &&& step.action is Idle
                    &&& appended(old(self).fast, final(self).fast, speech_frames@, start_ms, end_ms)
                    &&& appended(old(self).slow, final(self).slow, speech_frames@, start_ms, end_ms)
                    &&& final(self).pending_fast_segment_ids@ == old(self).pending_fast_segment_ids@
                    &&& step.arm_debounce == (!old(self).fast_debounce_armed && old(self).fast.frames@.len()
                        + speech_frames@.len() >= FAST_SPEECH_TRIGGER_SAMPLES)
                    &&& final(self).fast_debounce_armed == (old(self).fast_debounce_armed
                        || step.arm_debounce)
                }
            }),
    {
        let copy = copy_vec(&speech_frames);
        self.fast.append(copy, start_ms, end_ms);
        self.slow.append(speech_frames, start_ms, end_ms);
        proof {
            let f = self.fast.frames@;
            let s = self.slow.frames@;
            assert(f.is_suffix_of(s)) by {
                assert(f =~= s.subrange(s.len() - f.len(), s.len() as int));
            }
        }
        let mut arm_debounce = false;
        if self.fast.frames.len() as u64 >= FAST_SPEECH_TRIGGER_SAMPLES && !self.fast_debounce_armed {
            self.fast_debounce_armed = true;
            arm_debounce = true;
        }
        if self.slow.should_trigger() {
            let action = self.fire_slow_path();
            ChunkStep { arm_debounce: false, action }
        } else {
            ChunkStep { arm_debounce, action: PipelineAction::Idle }
        }
    }

    /// The fast-path debounce deadline passed: send what the fast
    /// accumulator holds.
    pub fn on_debounce_elapsed(&mut self) -> (action: PipelineAction<S>)
        requires
            old(self).wf(),
        ensures
            final(self).wf(),
            !final(self).fast_debounce_armed,
            final(self).slow == old(self).slow,
            final(self).pending_fast_segment_ids == old(self).pending_fast_segment_ids,
            old(self).fast.frames@.len() == 0 ==> action is Idle && final(self).fast == old(self).fast,
            old(self).fast.frames@.len() > 0 ==> final(self).fast.is_reset() && (
            action matches PipelineAction::RunFastPath { clip } && drained_into(old(self).fast, clip)),
    {
        self.fast_debounce_armed = false;
        let action = match self.fast.drain() {
            Some(clip) => PipelineAction::RunFastPath { clip },
            None => PipelineAction::Idle,
        };
        assert(self.fast.frames@.is_suffix_of(self.slow.frames@));
        action
    }

    /// Periodic inactivity check, given whether each accumulator has been
    /// idle for the inactivity timeout. An idle slow accumulator is flushed
    /// whatever it holds, covering the fast one; an idle fast accumulator
    /// alone needs at least 2 s of speech.
    pub fn on_idle(&mut self, slow_idle: bool, fast_idle: bool) -> (action: PipelineAction<S>)
        requires
            old(self).wf(),
        ensures
            final(self).wf(),
            idle_outcome(*old(self), *final(self), action, slow_idle, fast_idle),
    {
        if slow_idle && !self.slow.is_empty() {
            self.fire_slow_path()
        } else if fast_idle && self.fast.frames.len() as u64 >= FAST_SPEECH_TRIGGER_SAMPLES {
            let action = match self.fast.drain() {
                Some(clip) => PipelineAction::RunFastPath { clip },
                None => PipelineAction::Idle,
            };
            self.fast_debounce_armed = false;
            assert(self.fast.frames@.is_suffix_of(self.slow.frames@));
            action
        } else {
            PipelineAction::Idle
        }
    }

    /// Periodic inactivity check against the clock: the slow accumulator is
    /// idle when nothing was appended to it for `slow_timeout`, the fast one
    /// when nothing was appended to it for `fast_timeout`.
    pub fn on_inactivity_check(&mut self, slow_timeout: Duration, fast_timeout: Duration) -> (action: PipelineAction<S>)
        requires
            old(self).wf(),
        ensures
            final(self).wf(),
            exists|slow_idle: bool, fast_idle: bool|
                idle_outcome(*old(self), *final(self), action, slow_idle, fast_idle),
            action is RunSlowPath ==> old(self).slow.frames@.len() > 0,
            action is RunFastPath ==> old(self).fast.frames@.len() >= FAST_SPEECH_TRIGGER_SAMPLES,
            action is Idle ==> *final(self) == *old(self),
    {
        let slow_idle = self.slow.should_flush_for_inactivity(slow_timeout);
        let fast_idle = self.fast.should_flush_for_inactivity(fast_timeout);
        let action = self.on_idle(slow_idle, fast_idle);
        assert(idle_outcome(*old(self), *self, action, slow_idle, fast_idle));
        action
    }

    /// The session ended (stop requested or capture ended): the slow path
    /// covers everything buffered; the fast path alone is sent only when the
    /// slow accumulator is empty.
    pub fn finish(&mut self) -> (action: PipelineAction<S>)
        requires
            old(self).wf(),
        ensures
            final(self).wf(),
            final(self).fast.frames@.len() == 0,
            final(self).slow.frames@.len() == 0,
            old(self).slow.frames@.len() > 0 ==> (action matches PipelineAction::RunSlowPath {
                clip,
                fast_segment_ids,
            } && slow_path_fired(old(self).pending_fast_segment_ids@, *final(self), fast_segment_ids@)
                && drained_into(old(self).slow, clip) && old(self).fast.frames@.is_suffix_of(
                clip.frames@,
            )),
            old(self).slow.frames@.len() == 0 ==> action is Idle && *final(self) == *old(self),
    {
        if !self.slow.is_empty() {
            self.fire_slow_path()
        } else {
            // The fast frames are a tail of the slow ones, so none are left,
            // and no debounce can be armed.
            proof {
                assert(self.fast.frames@.len() <= self.slow.frames@.len());
            }
            PipelineAction::Idle
        }
    }

    /// Record the segment ids a fast-path clip produced; the next slow-path
    /// clip will replace them.
    pub fn record_fast_segments(&mut self, ids: Vec<i64>)
        requires
            old(self).wf(),
        ensures
            final(self).wf(),
            final(self).pending_fast_segment_ids@ == old(self).pending_fast_segment_ids@ + ids@,
            final(self).fast == old(self).fast,
            final(self).slow == old(self).slow,
            final(self).fast_debounce_armed == old(self).fast_debounce_armed,
    {
        let mut ids = ids;
        self.pending_fast_segment_ids.append(&mut ids);
    }
}

} // verus!
