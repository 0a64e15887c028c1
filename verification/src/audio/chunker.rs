//! Splits a stream of captured samples into VAD frames and emits one chunk
//! of voiced audio, with its session-relative timing, whenever the VAD
//! decides to flush.

use vstd::prelude::*;

use super::vad::{
    empty_vad_view, extend_from_prefix, flush_frames_for, vad_step, VadBackend, VadClassifier,
    VadView,
};

verus! {

/// Session-relative milliseconds covered by `samples` samples at 16 kHz.
pub open spec fn spec_samples_to_ms(samples: int) -> int {
    samples * 1_000 / 16_000
}

/// Convert a sample count at 16 kHz into milliseconds (rounded down).
pub fn samples_to_ms(samples: u64) -> (ms: u64)
    ensures
        ms == spec_samples_to_ms(samples as int),
{
    // samples * 1000 / 16000 == samples / 16, computed without overflow.
    let ms = samples / 16;
    assert(ms == samples * 1_000 / 16_000) by (nonlinear_arith)
        requires
            ms == samples / 16,
            samples >= 0,
    ;
    ms
}

/// A chunk emitted by the `Chunker` when the VAD decides to flush.
pub struct ChunkerOutput<S> {
    /// Audio of the chunk: voiced audio with the silence kept between its
    /// parts, as it is sent to the audio-server.
    pub audio_frames: Vec<S>,
    /// Speech-only samples of the chunk, without any silence padding (what
    /// the accumulators receive).
    pub speech_frames: Vec<S>,
    /// Session-relative start time in milliseconds.
    pub start_ms: u64,
    /// Session-relative end time in milliseconds.
    pub end_ms: u64,
}

/// The abstract state of a chunker besides its partial-frame buffer.
pub struct ChunkerView<S> {
    pub vad: VadView<S>,
    /// Sample index at which the current voiced chunk began.
    pub chunk_start: int,
    /// Samples consumed as whole frames so far.
    pub total: int,
}

/// The abstract content of a `ChunkerOutput`.
pub struct OutputView<S> {
    pub audio: Seq<S>,
    pub speech: Seq<S>,
    pub start_ms: int,
    pub end_ms: int,
}

pub open spec fn output_view<S>(o: Option<ChunkerOutput<S>>) -> Option<OutputView<S>> {
    match o {
        Some(out) => Some(
            OutputView {
                audio: out.audio_frames@,
                speech: out.speech_frames@,
                start_ms: out.start_ms as int,
                end_ms: out.end_ms as int,
            },
        ),
        None => None,
    }
}

/// One frame through the chunker: the chunk start is anchored at the first
/// frame fed to an empty VAD buffer, and an emitted chunk spans from that
/// anchor to the end of the frame.
pub open spec fn chunker_step<S>(c: ChunkerView<S>, frame: Seq<S>, is_speech: bool, flush_frames: int) -> (
    ChunkerView<S>,
    Option<OutputView<S>>,
) {
    let total = c.total + frame.len();
    let anchor = if c.vad.voiced.len() == 0 { c.total } else { c.chunk_start };
    let (v, out) = vad_step(c.vad, frame, is_speech, flush_frames);
    match out {
        Some(chunk) => (
            ChunkerView { vad: v, chunk_start: total, total },
            Some(
                OutputView {
                    audio: chunk.audio,
                    speech: chunk.speech,
                    start_ms: spec_samples_to_ms(anchor),
                    end_ms: spec_samples_to_ms(total),
                },
            ),
        ),
        None => (ChunkerView { vad: v, chunk_start: anchor, total }, None),
    }
}

/// The earliest sample index at which the next chunk can start: the chunk
/// start already anchored while voiced audio is buffered, otherwise the
/// samples consumed so far (the next voiced frame anchors there or later).
pub open spec fn next_start_floor<S>(c: ChunkerView<S>) -> int {
    if c.vad.voiced.len() == 0 {
        c.total
    } else {
        c.chunk_start
    }
}

/// Milliseconds never decrease as the sample count grows.
pub proof fn lemma_samples_to_ms_monotone(a: int, b: int)
    requires
        0 <= a <= b,
    ensures
        spec_samples_to_ms(a) <= spec_samples_to_ms(b),
{
    assert(a * 1_000 / 16_000 <= b * 1_000 / 16_000) by (nonlinear_arith)
        requires
            0 <= a <= b,
    ;
}

/// Emitted chunks run forward in time and do not overlap. One frame never
/// moves the earliest next start back; a chunk it emits starts exactly at
/// the earliest start before the frame, ends no earlier than it starts, and
/// ends exactly at the earliest start of the chunk after it.
pub proof fn lemma_chunks_run_forward<S>(c: ChunkerView<S>, frame: Seq<S>, is_speech: bool, flush_frames: int)
    requires
        0 <= c.chunk_start <= c.total,
    ensures
        ({
            let (c2, out) = chunker_step(c, frame, is_speech, flush_frames);
            &&& 0 <= c2.chunk_start <= c2.total
            &&& next_start_floor(c) <= next_start_floor(c2) <= c2.total
            &&& out matches Some(o) ==> {
                &&& o.start_ms == spec_samples_to_ms(next_start_floor(c))
                &&& o.start_ms <= o.end_ms
                &&& o.end_ms == spec_samples_to_ms(next_start_floor(c2))
                &&& c2.vad.voiced.len() == 0
                &&& c2.chunk_start == c2.total
            }
        }),
{
    let total = c.total + frame.len();
    let anchor = if c.vad.voiced.len() == 0 { c.total } else { c.chunk_start };
    lemma_samples_to_ms_monotone(anchor, total);
}

/// Successive chunks of one session do not overlap. A chunk ends at the
/// earliest next start of the state it leaves (`push_samples`, `flush`);
/// later calls only move that point forward; and the next chunk starts no
/// earlier than it stood before the call that emits it. So the next chunk
/// starts no earlier than the previous one ended.
pub proof fn lemma_successive_chunks_do_not_overlap<S>(
    after_prev: ChunkerView<S>,
    before_next: ChunkerView<S>,
    prev: OutputView<S>,
    next: OutputView<S>,
)
    requires
        0 <= next_start_floor(after_prev) <= next_start_floor(before_next),
        prev.end_ms == spec_samples_to_ms(next_start_floor(after_prev)),
        spec_samples_to_ms(next_start_floor(before_next)) <= next.start_ms,
    ensures
        prev.end_ms <= next.start_ms,
{
    lemma_samples_to_ms_monotone(next_start_floor(after_prev), next_start_floor(before_next));
}

/// The classification of the last frame of a run with outcomes `outs`, or
/// `before` when no frame was classified.
pub open spec fn last_outcome(outs: Seq<bool>, before: bool) -> bool {
    if outs.len() > 0 {
        outs.last()
    } else {
        before
    }
}

/// Consume whole frames of `frame_size` samples from the front of `buf`, the
/// i-th classified as `outs[i]`, until a chunk is emitted, the outcomes run
/// out, or less than a frame is left. Returns the new state, the unconsumed
/// samples and the emitted chunk.
pub open spec fn chunker_run<S>(
    c: ChunkerView<S>,
    buf: Seq<S>,
    outs: Seq<bool>,
    frame_size: int,
    flush_frames: int,
) -> (ChunkerView<S>, Seq<S>, Option<OutputView<S>>)
    decreases outs.len(),
{
    if outs.len() == 0 || frame_size <= 0 || buf.len() < frame_size {
        (c, buf, None)
    } else {
        let (c2, o) = chunker_step(c, buf.take(frame_size), outs[0], flush_frames);
        if o is Some {
            (c2, buf.skip(frame_size), o)
        } else {
            chunker_run(c2, buf.skip(frame_size), outs.drop_first(), frame_size, flush_frames)
        }
    }
}

/// Running the chunker over one more outcome continues from where the run
/// stopped, as long as no chunk was emitted and a whole frame is left.
pub proof fn lemma_chunker_run_push<S>(
    c0: ChunkerView<S>,
    buf: Seq<S>,
    outs: Seq<bool>,
    b: bool,
    frame_size: int,
    flush_frames: int,
)
    requires
        frame_size > 0,
        chunker_run(c0, buf, outs, frame_size, flush_frames).2 is None,
        chunker_run(c0, buf, outs, frame_size, flush_frames).1.len() >= frame_size,
    ensures
        ({
            let (c, rest, _o) = chunker_run(c0, buf, outs, frame_size, flush_frames);
            let (c2, o2) = chunker_step(c, rest.take(frame_size), b, flush_frames);
            chunker_run(c0, buf, outs.push(b), frame_size, flush_frames) == (
                c2,
                rest.skip(frame_size),
                o2,
            )
        }),
    decreases outs.len(),
{
    reveal_with_fuel(chunker_run, 2);
    if outs.len() == 0 {
        assert(outs.push(b).drop_first() =~= Seq::<bool>::empty());
        assert(outs.push(b)[0] == b);
    } else {
        let (c1, o1) = chunker_step(c0, buf.take(frame_size), outs[0], flush_frames);
        assert(outs.push(b).drop_first() =~= outs.drop_first().push(b));
        assert(outs.push(b)[0] == outs[0]);
        lemma_chunker_run_push(c1, buf.skip(frame_size), outs.drop_first(), b, frame_size, flush_frames);
    }
}

/// Copy `src[from..from + n]` into a new vector.
fn copy_range<S: Copy>(src: &Vec<S>, from: usize, n: usize) -> (r: Vec<S>)
    requires
        from + n <= src@.len(),
    ensures
        r@ == src@.subrange(from as int, from + n),
{
    let mut r: Vec<S> = Vec::new();
    let mut i: usize = 0;
    let len = src.len();
    while i < n
        invariant
            from + n <= src@.len(),
            len == src@.len(),
            i <= n,
            r@ == src@.subrange(from as int, from + i),
        decreases n - i,
    {
        r.push(src[from + i]);
        i = i + 1;
        assert(r@ =~= src@.subrange(from as int, from + i));
    }
    r
}

/// Accepts captured samples, feeds whole frames to the VAD, and emits a
/// chunk when the VAD flushes.
pub struct Chunker<S, B> {
    pub vad: VadClassifier<S, B>,
    /// Partial-frame accumulator: leftover samples between calls.
    pub frame_buf: Vec<S>,
    /// Sample index at which the current voiced chunk began.
    pub chunk_start_samples: u64,
    /// Total samples consumed as whole frames in this session.
    pub total_samples: u64,
}

impl<S: Copy, B: VadBackend<S>> Chunker<S, B> {
    pub open spec fn view(&self) -> ChunkerView<S> {
        ChunkerView {
            vad: self.vad.view(),
            chunk_start: self.chunk_start_samples as int,
            total: self.total_samples as int,
        }
    }

    pub open spec fn wf(&self) -> bool {
        &&& self.vad.wf()
        &&& self.chunk_start_samples <= self.total_samples
    }

    pub fn new(backend: B) -> (c: Self)
        ensures
            c.wf(),
            c.view() == (ChunkerView { vad: empty_vad_view::<S>(), chunk_start: 0, total: 0 }),
            c.frame_buf@.len() == 0,
            c.vad.backend == backend,
            c.vad.spec_frame_len() == backend.spec_frame_size(),
    {
        Chunker {
            vad: VadClassifier::new(backend),
            frame_buf: Vec::new(),
            chunk_start_samples: 0,
            total_samples: 0,
        }
    }

    /// Push a batch of captured samples.
    ///
    /// Whole frames are taken from the front of the buffered samples and fed
    /// to the VAD, each classified by the backend, until the VAD emits a
    /// chunk (at most one chunk per call) or less than a frame is left.
    pub fn push_samples(&mut self, samples: &[S]) -> (r: Option<ChunkerOutput<S>>)
        requires
            old(self).wf(),
            old(self).total_samples + old(self).frame_buf@.len() + samples@.len() <= u64::MAX,
        ensures
            final(self).wf(),
            final(self).vad.spec_frame_len() == old(self).vad.spec_frame_len(),
            final(self).total_samples + final(self).frame_buf@.len() == old(self).total_samples
                + old(self).frame_buf@.len() + samples@.len(),
            r is None && old(self).vad.spec_frame_len() > 0 ==> final(self).frame_buf@.len() as int == (
            old(self).frame_buf@.len() + samples@.len()) as int % old(self).vad.spec_frame_len(),
            next_start_floor(old(self).view()) <= next_start_floor(final(self).view()),
            output_view(r) matches Some(o) ==> {
                &&& spec_samples_to_ms(next_start_floor(old(self).view())) <= o.start_ms
                &&& o.start_ms <= o.end_ms
                &&& o.end_ms == spec_samples_to_ms(next_start_floor(final(self).view()))
                &&& o.end_ms == spec_samples_to_ms(final(self).total_samples as int)
            },
            exists|outs: Seq<bool>|
                chunker_run(
                    old(self).view(),
                    old(self).frame_buf@ + samples@,
                    outs,
                    old(self).vad.spec_frame_len(),
                    old(self).vad.spec_flush_frames(),
                ) == (final(self).view(), final(self).frame_buf@, output_view(r))
                    && final(self).vad.last_frame_was_speech == last_outcome(
                    outs,
                    old(self).vad.last_frame_was_speech,
                ),
    {
        let fs = self.vad.frame_size();
        let ghost ff = self.vad.spec_flush_frames();
        let ghost c0 = self.view();
        extend_from_prefix(&mut self.frame_buf, samples, samples.len());
        assert(samples@.take(samples@.len() as int) =~= samples@);
        let ghost all = self.frame_buf@;
        if fs == 0 {
            assert(chunker_run(c0, all, Seq::<bool>::empty(), fs as int, ff) == (self.view(), self.frame_buf@, output_view::<S>(None)));
            assert(self.vad.last_frame_was_speech == last_outcome(Seq::<bool>::empty(), old(self).vad.last_frame_was_speech));
            return None;
        }
        let mut pos: usize = 0;
        let ghost mut k: int = 0;
        let ghost mut outs: Seq<bool> = Seq::empty();
        assert(all.skip(0) =~= all);
        while self.frame_buf.len() - pos >= fs
            invariant
                fs > 0,
                fs == self.vad.spec_frame_len(),
                ff == self.vad.spec_flush_frames(),
                self.wf(),
                self.frame_buf@ == all,
                all == old(self).frame_buf@ + samples@,
                fs == old(self).vad.spec_frame_len(),
                ff == old(self).vad.spec_flush_frames(),
                c0 == old(self).view(),
                pos <= all.len(),
                self.total_samples == c0.total + pos,
                c0.total + all.len() <= u64::MAX,
                chunker_run(c0, all, outs, fs as int, ff) == (self.view(), all.skip(pos as int), None::<OutputView<S>>),
                self.vad.last_frame_was_speech == last_outcome(outs, old(self).vad.last_frame_was_speech),
                pos == k * fs,
                k >= 0,
                0 <= c0.chunk_start <= c0.total,
                next_start_floor(c0) <= next_start_floor(self.view()),
            decreases all.len() - pos,
        {
            let frame = copy_range(&self.frame_buf, pos, fs);
            assert(frame@ =~= all.skip(pos as int).take(fs as int));
            let ghost c = self.view();
            pos = pos + fs;
            proof {
                assert(pos == (k + 1) * fs) by (nonlinear_arith)
                    requires
                        pos == k * fs + fs,
                ;
                k = k + 1;
            }
            let before = self.total_samples;
            self.total_samples = self.total_samples + fs as u64;
            if self.vad.voiced_buf.len() == 0 {
                self.chunk_start_samples = before;
            }
            let res = self.vad.push_frame(frame.as_slice());
            let ghost b = self.vad.last_frame_was_speech;
            let ghost step = chunker_step(c, frame@, b, ff);
            proof {
                lemma_chunker_run_push(c0, all, outs, b, fs as int, ff);
                lemma_chunks_run_forward(c, frame@, b, ff);
                outs = outs.push(b);
                assert(all.skip(pos - fs).skip(fs as int) =~= all.skip(pos as int));
            }
            match res {
                Some(chunk) => {
                    let start_ms = samples_to_ms(self.chunk_start_samples);
                    let end_ms = samples_to_ms(self.total_samples);
                    self.chunk_start_samples = self.total_samples;
                    let rest_len = self.frame_buf.len() - pos;
                    let rest = copy_range(&self.frame_buf, pos, rest_len);
                    self.frame_buf = rest;
                    assert(self.frame_buf@ =~= all.skip(pos as int));
                    let out = ChunkerOutput {
                        audio_frames: chunk.audio,
                        speech_frames: chunk.speech,
                        start_ms,
                        end_ms,
                    };
                    assert(step.0 == self.view());
                    assert(step.1 == output_view(Some(out)));
                    assert(chunker_run(c0, all, outs, fs as int, ff) == (self.view(), self.frame_buf@, output_view(Some(out))));
                    assert(self.vad.last_frame_was_speech == last_outcome(outs, old(self).vad.last_frame_was_speech));
                    proof {
                        lemma_samples_to_ms_monotone(next_start_floor(c0), next_start_floor(c));
                    }
                    return Some(out);
                },
                None => {
                    assert(step.0 == self.view());
                },
            }
        }
        let rest_len = self.frame_buf.len() - pos;
        let rest = copy_range(&self.frame_buf, pos, rest_len);
        self.frame_buf = rest;
        assert(self.frame_buf@ =~= all.skip(pos as int));
        proof {
            vstd::arithmetic::div_mod::lemma_fundamental_div_mod_converse(
                all.len() as int,
                fs as int,
                k,
                rest_len as int,
            );
        }
        None
    }

    /// Reset all per-session state: the VAD (and its backend), the frame
    /// buffer and the sample counters.
    pub fn reset(&mut self)
        requires
            old(self).wf(),
        ensures
            final(self).wf(),
            final(self).vad.spec_frame_len() == old(self).vad.spec_frame_len(),
            final(self).view() == (ChunkerView { vad: empty_vad_view::<S>(), chunk_start: 0, total: 0 }),
            final(self).frame_buf@.len() == 0,
            !final(self).vad.last_frame_was_speech,
    {
        self.vad.reset();
        self.frame_buf.clear();
        self.chunk_start_samples = 0;
        self.total_samples = 0;
    }

    /// Flush remaining voiced content at session end.
    pub fn flush(&mut self) -> (r: Option<ChunkerOutput<S>>)
        requires
            old(self).wf(),
        ensures
            final(self).wf(),
            final(self).vad.spec_frame_len() == old(self).vad.spec_frame_len(),
            final(self).frame_buf@ == old(self).frame_buf@,
            final(self).chunk_start_samples == old(self).chunk_start_samples,
            final(self).total_samples == old(self).total_samples,
            final(self).vad.last_frame_was_speech == old(self).vad.last_frame_was_speech,
            next_start_floor(old(self).view()) <= next_start_floor(final(self).view()),
            output_view(r) matches Some(o) ==> o.start_ms == spec_samples_to_ms(
                next_start_floor(old(self).view()),
            ) && o.start_ms <= o.end_ms && o.end_ms == spec_samples_to_ms(
                next_start_floor(final(self).view()),
            ),
            old(self).vad.voiced_buf@.len() == 0 ==> r is None && final(self).view() == old(self).view(),
            old(self).vad.voiced_buf@.len() > 0 ==> final(self).vad.view() == empty_vad_view::<S>()
                && output_view(r) == Some(
                OutputView {
                    audio: old(self).vad.voiced_buf@,
                    speech: old(self).vad.view().speech,
                    start_ms: spec_samples_to_ms(old(self).chunk_start_samples as int),
                    end_ms: spec_samples_to_ms(old(self).total_samples as int),
                },
            ),
    {
        match self.vad.flush() {
            Some(chunk) => {
                let start_ms = samples_to_ms(self.chunk_start_samples);
                let end_ms = samples_to_ms(self.total_samples);
                proof {
                    lemma_samples_to_ms_monotone(
                        self.chunk_start_samples as int,
                        self.total_samples as int,
                    );
                }
                Some(
                    ChunkerOutput {
                        audio_frames: chunk.audio,
                        speech_frames: chunk.speech,
                        start_ms,
                        end_ms,
                    },
                )
            },
            None => None,
        }
    }
}

} // verus!
