//! Gating layer that buffers voiced audio and emits a chunk once the speaker
//! has been silent long enough, or once the buffer reaches its hard cap.

use vstd::prelude::*;

verus! {

/// Audio sample rate of every frame handled here (16 kHz mono).
pub const SAMPLE_RATE: usize = 16_000;

/// Hard cap: flush after 30 s of voiced audio regardless of silence.
pub const MAX_VOICED_SAMPLES: usize = 480_000;

/// 200 ms of silence kept as padding so the tail of an utterance is not cut.
pub const SILENCE_PAD_MS: usize = 200;

/// Trailing silence (in ms) after voiced content that triggers a flush.
pub const SILENCE_FLUSH_MS: usize = 500;

/// Abstraction over the voice-activity detectors.
///
/// The frame size is part of the contract: `VadClassifier` reads it once,
/// when it is built, and scales every silence threshold from it; every frame
/// handed to `classify_frame` afterwards has exactly that many samples.
pub trait VadBackend<S> {
    /// Number of samples per frame this backend expects, as `frame_size`
    /// returns it.
    spec fn spec_frame_size(&self) -> usize;

    /// Number of samples per frame this backend expects.
    fn frame_size(&self) -> (n: usize)
        ensures
            n == self.spec_frame_size(),
    ;

    /// Classify one frame. Returns `true` if voiced.
    fn classify_frame(&mut self, frame: &[S]) -> bool;

    /// Reset per-session state (e.g. a recurrent model's hidden state).
    fn reset(&mut self);
}

#[verifier::external_type_specification]
#[verifier::external_body]
pub struct ExWebRtcVad(webrtc_vad::Vad);

/// Creates a libfvad instance (`webrtc_vad::Vad::new_with_rate_and_mode`)
/// for `sample_rate` Hz and aggressiveness `mode` (0 quality, 1 low bitrate,
/// 2 aggressive, 3 very aggressive). Nothing is stated of the instance.
#[verifier::external_body]
fn new_webrtc_vad(sample_rate: u32, mode: u8) -> webrtc_vad::Vad
    requires
        sample_rate == 8_000 || sample_rate == 16_000 || sample_rate == 32_000 || sample_rate
            == 48_000,
        mode <= 3,
{
    let rate = webrtc_vad::SampleRate::try_from(sample_rate as i32).expect("supported sample rate");
    let mode = match mode {
        0 => webrtc_vad::VadMode::Quality,
        1 => webrtc_vad::VadMode::LowBitrate,
        2 => webrtc_vad::VadMode::Aggressive,
        _ => webrtc_vad::VadMode::VeryAggressive,
    };
    webrtc_vad::Vad::new_with_rate_and_mode(rate, mode)
}

/// libfvad's decision for one frame (`webrtc_vad::Vad::is_voice_segment`):
/// `Ok(true)` for voice, `Ok(false)` for no voice, `Err(())` for a frame
/// length the detector does not accept. It depends on the detector's
/// internal state, so nothing is stated of it. The frame must not be empty
/// (the crate reads its first element).
#[verifier::external_body]
fn webrtc_is_voice_segment(vad: &mut webrtc_vad::Vad, frame: &[i16]) -> Result<bool, ()>
    requires
        frame@.len() > 0,
{
    vad.is_voice_segment(frame)
}

/// The frame lengths (in samples) the WebRTC detector accepts at
/// `sample_rate` Hz: 10, 20 or 30 ms of audio.
pub open spec fn webrtc_frame_len_ok(sample_rate: int, len: int) -> bool {
    let per_ms = sample_rate / 1_000;
    len == 10 * per_ms || len == 20 * per_ms || len == 30 * per_ms
}

/// WebRTC VAD (libfvad) at 16 kHz in quality mode, on 10 ms frames of
/// 16-bit samples.
pub struct WebRtcBackend {
    vad: webrtc_vad::Vad,
    /// The sample rate passed to the detector when it was created.
    sample_rate: u32,
}

impl WebRtcBackend {
    /// The sample rate (Hz) passed to the detector when it was created.
    pub closed spec fn detector_rate(&self) -> int {
        self.sample_rate as int
    }

    /// A detector for 16 kHz audio in quality mode.
    pub fn new() -> (b: Self)
        ensures
            b.detector_rate() == SAMPLE_RATE,
    {
        let sample_rate: u32 = 16_000;
        WebRtcBackend { vad: new_webrtc_vad(sample_rate, 0), sample_rate }
    }
}

impl Default for WebRtcBackend {
    /// A detector for 16 kHz audio in quality mode, as `new` makes it.
    fn default() -> (b: Self)
        ensures
            b.detector_rate() == SAMPLE_RATE,
    {
        Self::new()
    }
}

impl VadBackend<i16> for WebRtcBackend {
    /// 10 ms at 16 kHz, the shortest frame webrtc-vad accepts.
    open spec fn spec_frame_size(&self) -> usize {
        160
    }

    /// 10 ms at 16 kHz, the shortest frame webrtc-vad accepts.
    fn frame_size(&self) -> (n: usize) {
        160
    }

    /// Voiced when the detector says so. A frame of a length the detector
    /// does not accept at its sample rate (not 10, 20 or 30 ms, or empty)
    /// counts as silence, as the detector rejects it.
    fn classify_frame(&mut self, frame: &[i16]) -> (voiced: bool)
        ensures
            final(self).detector_rate() == old(self).detector_rate(),
            !webrtc_frame_len_ok(old(self).detector_rate(), frame@.len() as int) ==> !voiced,
            frame@.len() == 0 ==> !voiced,
    {
        let per_ms = (self.sample_rate / 1_000) as usize;
        let len = frame.len();
        let accepted = len == 10 * per_ms || len == 20 * per_ms || len == 30 * per_ms;
        if len == 0 || !accepted {
            return false;
        }
        match webrtc_is_voice_segment(&mut self.vad, frame) {
            Ok(voiced) => voiced,
            Err(()) => false,
        }
    }

    /// The WebRTC detector keeps no per-session state to reset.
    fn reset(&mut self) {
    }
}

/// Number of samples the silence pad may hold (200 ms at 16 kHz).
pub open spec fn silence_pad_limit() -> int {
    (SILENCE_PAD_MS * SAMPLE_RATE / 1_000) as int
}

/// How many consecutive silent frames of `frame_len` samples make 500 ms
/// (at least one millisecond per frame is assumed).
pub open spec fn flush_frames_for(frame_len: int) -> int {
    let frame_ms = frame_len * 1_000 / (SAMPLE_RATE as int);
    (SILENCE_FLUSH_MS as int) / (if frame_ms >= 1 { frame_ms } else { 1 })
}

/// The abstract state of a classifier: buffered voiced audio (with the
/// silence kept between its parts), the same audio with that silence taken
/// out (speech only), the current run of silent frames, and the silence kept
/// as padding.
pub struct VadView<S> {
    pub voiced: Seq<S>,
    pub speech: Seq<S>,
    pub silence_run: int,
    pub silence_pad: Seq<S>,
}

pub open spec fn empty_vad_view<S>() -> VadView<S> {
    VadView { voiced: Seq::empty(), speech: Seq::empty(), silence_run: 0, silence_pad: Seq::empty() }
}

/// The abstract content of an emitted chunk: its audio, padding included,
/// and its speech-only samples.
pub struct ChunkView<S> {
    pub audio: Seq<S>,
    pub speech: Seq<S>,
}

/// A chunk emitted by the classifier.
pub struct VadChunk<S> {
    /// Voiced audio with the silence kept between its parts (what is sent
    /// as the chunk's WAV).
    pub audio: Vec<S>,
    /// The frames classified as speech only, without any padding.
    pub speech: Vec<S>,
}

pub open spec fn opt_chunk<S>(o: Option<VadChunk<S>>) -> Option<ChunkView<S>> {
    match o {
        Some(c) => Some(ChunkView { audio: c.audio@, speech: c.speech@ }),
        None => None,
    }
}

/// What one classified frame does to the classifier state, and the chunk it
/// emits, if any.
pub open spec fn vad_step<S>(v: VadView<S>, frame: Seq<S>, is_speech: bool, flush_frames: int) -> (
    VadView<S>,
    Option<ChunkView<S>>,
) {
    if is_speech {
        // The pending silence pad is kept between the utterance parts of the
        // audio; the speech gets the frame alone.
        let voiced = v.voiced + v.silence_pad + frame;
        let speech = v.speech + frame;
        if voiced.len() >= MAX_VOICED_SAMPLES {
            (empty_vad_view(), Some(ChunkView { audio: voiced, speech }))
        } else {
            (VadView { voiced, speech, silence_run: 0, silence_pad: Seq::empty() }, None)
        }
    } else if v.voiced.len() > 0 {
        let run = v.silence_run + 1;
        let room = silence_pad_limit() - v.silence_pad.len();
        let pad = if room > 0 {
            v.silence_pad + frame.take(if room < frame.len() { room } else { frame.len() as int })
        } else {
            v.silence_pad
        };
        if run >= flush_frames {
            (empty_vad_view(), Some(ChunkView { audio: v.voiced, speech: v.speech }))
        } else {
            (VadView { voiced: v.voiced, speech: v.speech, silence_run: run, silence_pad: pad }, None)
        }
    } else {
        // Leading silence: nothing to do.
        (v, None)
    }
}

/// Leading silence changes nothing and emits nothing.
pub proof fn lemma_leading_silence_is_ignored<S>(v: VadView<S>, frame: Seq<S>, flush_frames: int)
    requires
        v.voiced.len() == 0,
    ensures
        vad_step(v, frame, false, flush_frames) == (v, None::<ChunkView<S>>),
{
}

/// The voiced buffer never reaches the 30 s cap: a frame that would make it
/// reach the cap flushes it.
pub proof fn lemma_voiced_stays_below_cap<S>(v: VadView<S>, frame: Seq<S>, is_speech: bool, flush_frames: int)
    requires
        v.voiced.len() < MAX_VOICED_SAMPLES,
    ensures
        vad_step(v, frame, is_speech, flush_frames).0.voiced.len() < MAX_VOICED_SAMPLES,
{
}

/// The silence pad never holds more than 200 ms of audio.
pub proof fn lemma_pad_stays_within_limit<S>(v: VadView<S>, frame: Seq<S>, is_speech: bool, flush_frames: int)
    requires
        v.silence_pad.len() <= silence_pad_limit(),
    ensures
        vad_step(v, frame, is_speech, flush_frames).0.silence_pad.len() <= silence_pad_limit(),
{
}

/// A silent frame never enters the speech: it leaves the speech as it was,
/// or flushes it unchanged.
pub proof fn lemma_silent_frames_stay_out_of_speech<S>(v: VadView<S>, frame: Seq<S>, flush_frames: int)
    ensures
        ({
            let (v2, out) = vad_step(v, frame, false, flush_frames);
            match out {
                Some(c) => c.speech == v.speech && v2.speech.len() == 0,
                None => v2.speech == v.speech,
            }
        }),
{
}

/// A chunk emitted on silence is exactly the buffered voiced audio and its
/// speech: the trailing silence kept as padding is dropped.
pub proof fn lemma_silence_flush_drops_trailing_pad<S>(v: VadView<S>, frame: Seq<S>, flush_frames: int)
    requires
        v.voiced.len() > 0,
        v.silence_run + 1 >= flush_frames,
    ensures
        vad_step(v, frame, false, flush_frames) == (
            empty_vad_view::<S>(),
            Some(ChunkView { audio: v.voiced, speech: v.speech }),
        ),
{
}

/// Feed `frames` to the classifier one after another as silent frames,
/// stopping at the first chunk emitted.
pub open spec fn silent_steps<S>(v: VadView<S>, frames: Seq<Seq<S>>, flush_frames: int) -> (
    VadView<S>,
    Option<ChunkView<S>>,
)
    decreases frames.len(),
{
    if frames.len() == 0 {
        (v, None)
    } else {
        let (v2, out) = vad_step(v, frames[0], false, flush_frames);
        if out is Some {
            (v2, out)
        } else {
            silent_steps(v2, frames.drop_first(), flush_frames)
        }
    }
}

proof fn lemma_silent_steps_short_run<S>(w: VadView<S>, frames: Seq<Seq<S>>, flush_frames: int)
    requires
        0 <= w.silence_run,
        w.silence_run + frames.len() < flush_frames,
    ensures
        silent_steps(w, frames, flush_frames).1 is None,
    decreases frames.len(),
{
    if frames.len() > 0 {
        let (w2, out) = vad_step(w, frames[0], false, flush_frames);
        assert(out is None);
        assert(w2.silence_run <= w.silence_run + 1);
        assert(0 <= w2.silence_run);
        lemma_silent_steps_short_run(w2, frames.drop_first(), flush_frames);
    }
}

proof fn lemma_silent_steps_full_run<S>(w: VadView<S>, frames: Seq<Seq<S>>, flush_frames: int)
    requires
        w.voiced.len() > 0,
        0 <= w.silence_run,
        frames.len() >= 1,
        w.silence_run + frames.len() == flush_frames,
    ensures
        silent_steps(w, frames, flush_frames).1 == Some(
            ChunkView { audio: w.voiced, speech: w.speech },
        ),
    decreases frames.len(),
{
    let (w2, out) = vad_step(w, frames[0], false, flush_frames);
    if frames.len() > 1 {
        assert(out is None);
        assert(w2.voiced == w.voiced && w2.speech == w.speech);
        assert(w2.silence_run == w.silence_run + 1);
        lemma_silent_steps_full_run(w2, frames.drop_first(), flush_frames);
    }
}

/// Silence is measured from the last voiced frame: after a voiced frame
/// (that does not reach the cap), fewer than `flush_frames` silent frames
/// never emit a chunk, whatever silence came before the voiced frame.
pub proof fn lemma_short_silence_after_speech_keeps_buffering<S>(
    v: VadView<S>,
    voiced_frame: Seq<S>,
    silent_frames: Seq<Seq<S>>,
    flush_frames: int,
)
    requires
        vad_step(v, voiced_frame, true, flush_frames).1 is None,
        silent_frames.len() < flush_frames,
    ensures
        silent_steps(vad_step(v, voiced_frame, true, flush_frames).0, silent_frames, flush_frames).1
            is None,
{
    let v1 = vad_step(v, voiced_frame, true, flush_frames).0;
    assert(v1.silence_run == 0);
    lemma_silent_steps_short_run(v1, silent_frames, flush_frames);
}

/// After a non-empty voiced frame (that does not reach the cap), exactly
/// `flush_frames` silent frames emit the buffered chunk, with its audio and
/// its speech as they stood after the voiced frame.
pub proof fn lemma_full_silence_after_speech_flushes<S>(
    v: VadView<S>,
    voiced_frame: Seq<S>,
    silent_frames: Seq<Seq<S>>,
    flush_frames: int,
)
    requires
        vad_step(v, voiced_frame, true, flush_frames).1 is None,
        voiced_frame.len() > 0,
        flush_frames >= 1,
        silent_frames.len() == flush_frames,
    ensures
        ({
            let v1 = vad_step(v, voiced_frame, true, flush_frames).0;
            silent_steps(v1, silent_frames, flush_frames).1 == Some(
                ChunkView { audio: v1.voiced, speech: v1.speech },
            )
        }),
{
    let v1 = vad_step(v, voiced_frame, true, flush_frames).0;
    assert(v1.silence_run == 0);
    assert(v1.voiced.len() > 0);
    lemma_silent_steps_full_run(v1, silent_frames, flush_frames);
}

/// `s` with the spans `(start, length)` taken out.
pub open spec fn without_spans<S>(s: Seq<S>, spans: Seq<(usize, usize)>) -> Seq<S>
    decreases spans.len(),
{
    if spans.len() == 0 {
        s
    } else {
        let last = spans.last();
        without_spans(s.take(last.0 as int), spans.drop_last()) + s.skip(last.0 + last.1)
    }
}

/// The spans lie inside a sequence of `len` elements, in increasing order
/// and without overlap.
pub open spec fn spans_within(spans: Seq<(usize, usize)>, len: int) -> bool {
    &&& forall|i: int| 0 <= i < spans.len() ==> #[trigger] spans[i].0 + spans[i].1 <= len
    &&& forall|i: int, j: int|
        0 <= i < j < spans.len() ==> #[trigger] spans[i].0 + spans[i].1 <= #[trigger] spans[j].0
}

/// Appending after the last span leaves the spans' removal unchanged.
proof fn lemma_without_spans_append<S>(s: Seq<S>, t: Seq<S>, spans: Seq<(usize, usize)>)
    requires
        spans_within(spans, s.len() as int),
    ensures
        without_spans(s + t, spans) == without_spans(s, spans) + t,
        spans_within(spans, (s + t).len() as int),
{
    if spans.len() == 0 {
    } else {
        let last = spans.last();
        assert(spans[spans.len() - 1] == last);
        assert((s + t).take(last.0 as int) =~= s.take(last.0 as int));
        assert((s + t).skip(last.0 + last.1) =~= s.skip(last.0 + last.1) + t);
        assert(without_spans(s, spans) + t =~= without_spans(s.take(last.0 as int), spans.drop_last())
            + (s.skip(last.0 + last.1) + t));
    }
}

/// Inserting a pad `p` between `v` and `f`, recorded as a span, keeps it out
/// of the speech.
proof fn lemma_without_spans_push_pad<S>(v: Seq<S>, p: Seq<S>, f: Seq<S>, spans: Seq<(usize, usize)>, a: usize, l: usize)
    requires
        a == v.len(),
        l == p.len(),
        spans_within(spans, v.len() as int),
    ensures
        without_spans(v + p + f, spans.push((a, l))) == without_spans(v, spans) + f,
        spans_within(spans.push((a, l)), (v + p + f).len() as int),
{
    let sp = spans.push((a, l));
    assert(sp.last() == (a, l));
    assert(sp.drop_last() =~= spans);
    assert((v + p + f).take(a as int) =~= v);
    assert((v + p + f).skip(a + l) =~= f);
    assert forall|i: int, j: int| 0 <= i < j < sp.len() implies #[trigger] sp[i].0 + sp[i].1
        <= #[trigger] sp[j].0 by {
        if j == sp.len() - 1 {
            assert(sp[i] == spans[i]);
        } else {
            assert(sp[i] == spans[i]);
            assert(sp[j] == spans[j]);
        }
    }
    assert forall|i: int| 0 <= i < sp.len() implies #[trigger] sp[i].0 + sp[i].1 <= (v + p + f).len() by {
        if i < spans.len() {
            assert(sp[i] == spans[i]);
        }
    }
}

/// Append the first `n` elements of `src` to `dst`.
pub fn extend_from_prefix<S: Copy>(dst: &mut Vec<S>, src: &[S], n: usize)
    requires
        n <= src@.len(),
    ensures
        final(dst)@ == old(dst)@ + src@.take(n as int),
{
    let mut i: usize = 0;
    while i < n
        invariant
            n <= src@.len(),
            i <= n,
            dst@ == old(dst)@ + src@.take(i as int),
        decreases n - i,
    {
        dst.push(src[i]);
        i = i + 1;
        assert(src@.take(i as int) =~= src@.take((i - 1) as int).push(src@[i - 1]));
    }
}

/// Append `src[from..to]` to `dst`.
fn extend_from_range<S: Copy>(dst: &mut Vec<S>, src: &Vec<S>, from: usize, to: usize)
    requires
        from <= to <= src@.len(),
    ensures
        final(dst)@ == old(dst)@ + src@.subrange(from as int, to as int),
{
    let mut i: usize = from;
    while i < to
        invariant
            from <= i <= to <= src@.len(),
            dst@ == old(dst)@ + src@.subrange(from as int, i as int),
        decreases to - i,
    {
        dst.push(src[i]);
        i = i + 1;
        assert(src@.subrange(from as int, i as int) =~= src@.subrange(from as int, i - 1).push(
            src@[i - 1],
        ));
    }
}

/// `s` with the spans taken out, for spans that lie in order inside it.
fn strip_spans<S: Copy>(s: &Vec<S>, spans: &Vec<(usize, usize)>) -> (r: Vec<S>)
    ensures
        spans_within(spans@, s@.len() as int) ==> r@ == without_spans(s@, spans@),
{
    let len = s.len();
    let mut r: Vec<S> = Vec::new();
    let mut pos: usize = 0;
    let mut i: usize = 0;
    while i < spans.len()
        invariant
            len == s@.len(),
            pos <= len,
            i <= spans@.len(),
            spans_within(spans@, len as int) ==> {
                &&& r@ == without_spans(s@.take(pos as int), spans@.take(i as int))
                &&& i > 0 ==> pos == spans@[i - 1].0 + spans@[i - 1].1
                &&& i == 0 ==> pos == 0
            },
        decreases spans@.len() - i,
    {
        let (a, l) = spans[i];
        let start = if a < pos {
            pos
        } else if a > len {
            len
        } else {
            a
        };
        let stop = if l > len - start {
            len
        } else {
            start + l
        };
        let ghost r0 = r@;
        let ghost pos0 = pos as int;
        extend_from_range(&mut r, s, pos, start);
        proof {
            if spans_within(spans@, len as int) {
                let sp = spans@;
                assert(sp[i as int] == (a, l));
                assert(a + l <= len);
                if i > 0 {
                    assert(sp[i - 1].0 + sp[i - 1].1 <= sp[i as int].0);
                }
                assert(start == a);
                assert(stop == a + l);
                let pre = sp.take(i as int);
                let pre1 = sp.take(i + 1);
                // The spans before this one lie inside s[..pos].
                assert(spans_within(pre, pos0)) by {
                    assert forall|j: int| 0 <= j < pre.len() implies #[trigger] pre[j].0 + pre[j].1
                        <= pos0 by {
                        assert(pre[j] == sp[j]);
                        if j < i - 1 {
                            assert(sp[j].0 + sp[j].1 <= sp[i - 1].0);
                        }
                    }
                    assert forall|j: int, k: int| 0 <= j < k < pre.len() implies #[trigger] pre[j].0
                        + pre[j].1 <= #[trigger] pre[k].0 by {
                        assert(pre[j] == sp[j]);
                        assert(pre[k] == sp[k]);
                    }
                }
                let sa = s@.take(a as int);
                assert(sa =~= s@.take(pos0) + s@.subrange(pos0, a as int));
                lemma_without_spans_append(s@.take(pos0), s@.subrange(pos0, a as int), pre);
                assert(pre1.last() == (a, l));
                assert(pre1.drop_last() =~= pre);
                assert(s@.take(a + l).take(a as int) =~= sa);
                assert(s@.take(a + l).skip(a + l) =~= Seq::<S>::empty());
                assert(without_spans(s@.take(a + l), pre1) =~= without_spans(sa, pre) + Seq::<S>::empty());
                assert(r@ =~= without_spans(s@.take(a + l), pre1));
            }
        }
        pos = stop;
        i = i + 1;
    }
    let ghost r0 = r@;
    let ghost pos0 = pos as int;
    extend_from_range(&mut r, s, pos, len);
    proof {
        if spans_within(spans@, len as int) {
            let sp = spans@;
            assert(sp.take(i as int) =~= sp);
            assert(spans_within(sp, pos0)) by {
                assert forall|j: int| 0 <= j < sp.len() implies #[trigger] sp[j].0 + sp[j].1 <= pos0 by {
                    if j < sp.len() - 1 {
                        assert(sp[j].0 + sp[j].1 <= sp[sp.len() - 1].0);
                    }
                }
            }
            assert(s@ =~= s@.take(pos0) + s@.subrange(pos0, len as int));
            lemma_without_spans_append(s@.take(pos0), s@.subrange(pos0, len as int), sp);
        }
    }
    r
}

/// Gating layer that buffers voiced audio and emits chunks on silence.
pub struct VadClassifier<S, B> {
    pub backend: B,
    /// Accumulated voiced (+ padding) samples waiting to be flushed.
    pub voiced_buf: Vec<S>,
    /// Whether the most recently classified frame was voiced.
    pub last_frame_was_speech: bool,
    /// Consecutive silent frames seen since the last voiced frame.
    pub silence_run: u32,
    /// Short silence tail kept as padding.
    pub silence_pad: Vec<S>,
    /// Where the padding kept between utterance parts lies in `voiced_buf`,
    /// as `(start, length)`: taken out again to give the speech-only samples.
    pub pad_spans: Vec<(usize, usize)>,
    /// The backend's frame size, read once at construction.
    pub frame_len: usize,
}

impl<S: Copy, B: VadBackend<S>> VadClassifier<S, B> {
    pub open spec fn view(&self) -> VadView<S> {
        VadView {
            voiced: self.voiced_buf@,
            speech: without_spans(self.voiced_buf@, self.pad_spans@),
            silence_run: self.silence_run as int,
            silence_pad: self.silence_pad@,
        }
    }

    pub open spec fn spec_frame_len(&self) -> int {
        self.frame_len as int
    }

    pub open spec fn spec_flush_frames(&self) -> int {
        flush_frames_for(self.spec_frame_len())
    }

    /// The silence run stays below the flush threshold (or at zero).
    pub open spec fn wf(&self) -> bool {
        &&& spans_within(self.pad_spans@, self.voiced_buf@.len() as int)
        &&& self.silence_run == 0 || self.silence_run < flush_frames_for(self.frame_len as int)
        &&& flush_frames_for(self.frame_len as int) <= SILENCE_FLUSH_MS
    }

    proof fn lemma_flush_frames_bounded(frame_len: int)
        requires
            frame_len >= 0,
        ensures
            0 <= flush_frames_for(frame_len) <= SILENCE_FLUSH_MS,
    {
        let frame_ms = frame_len * 1_000 / (SAMPLE_RATE as int);
        assert(frame_ms >= 0) by (nonlinear_arith)
            requires
                frame_len >= 0,
                frame_ms == frame_len * 1_000 / 16_000,
        ;
        let d = if frame_ms >= 1 { frame_ms } else { 1 };
        assert(0 <= 500int / d <= 500) by (nonlinear_arith)
            requires
                d >= 1,
        ;
    }

    pub fn new(backend: B) -> (c: Self)
        ensures
            c.wf(),
            c.view() == empty_vad_view::<S>(),
            !c.last_frame_was_speech,
            c.backend == backend,
            c.spec_frame_len() == backend.spec_frame_size(),
    {
        let frame_len = backend.frame_size();
        proof {
            Self::lemma_flush_frames_bounded(frame_len as int);
        }
        let c = VadClassifier {
            backend,
            voiced_buf: Vec::new(),
            last_frame_was_speech: false,
            silence_run: 0,
            silence_pad: Vec::new(),
            pad_spans: Vec::new(),
            frame_len,
        };
        assert(c.view() == empty_vad_view::<S>());
        c
    }

    /// The number of samples each frame must have.
    pub fn frame_size(&self) -> (n: usize)
        ensures
            n == self.spec_frame_len(),
    {
        self.frame_len
    }

    /// How many consecutive silent frames trigger a flush: 500 ms worth of
    /// frames, at least one millisecond per frame.
    pub fn silence_flush_frames(&self) -> (n: u32)
        ensures
            n == self.spec_flush_frames(),
    {
        let f = self.frame_len;
        // f * 1000 / 16000 == f / 16, computed without overflow.
        let frame_ms = f / 16;
        assert(frame_ms == f * 1_000 / 16_000) by (nonlinear_arith)
            requires
                frame_ms == f / 16,
                f >= 0,
        ;
        let d = if frame_ms >= 1 { frame_ms } else { 1 };
        proof {
            Self::lemma_flush_frames_bounded(f as int);
        }
        (500 / d) as u32
    }

    /// Maximum number of samples kept in the silence pad.
    pub fn silence_pad_samples(&self) -> (n: usize)
        ensures
            n == silence_pad_limit(),
    {
        SILENCE_PAD_MS * SAMPLE_RATE / 1_000
    }

    /// Feed one frame whose voiced/silent classification is already known.
    ///
    /// Returns the buffered chunk when 500 ms of silence follow voiced
    /// content, or when the buffer reaches the 30 s cap.
    pub fn push_classified_frame(&mut self, frame: &[S], is_speech: bool) -> (r: Option<VadChunk<S>>)
        requires
            old(self).wf(),
        ensures
            final(self).wf(),
            final(self).spec_frame_len() == old(self).spec_frame_len(),
            final(self).backend == old(self).backend,
            final(self).last_frame_was_speech == is_speech,
            (final(self).view(), opt_chunk(r)) == vad_step(
                old(self).view(),
                frame@,
                is_speech,
                old(self).spec_flush_frames(),
            ),
    {
        self.last_frame_was_speech = is_speech;
        let flush_frames = self.silence_flush_frames();
        if is_speech {
            let ghost v0 = self.voiced_buf@;
            let ghost sp0 = self.pad_spans@;
            let ghost pad0 = self.silence_pad@;
            if self.silence_pad.len() > 0 {
                let start = self.voiced_buf.len();
                let mut pad = Vec::new();
                std::mem::swap(&mut pad, &mut self.silence_pad);
                let n = pad.len();
                extend_from_prefix(&mut self.voiced_buf, pad.as_slice(), n);
                assert(pad@.take(n as int) =~= pad@);
                self.pad_spans.push((start, n));
                extend_from_prefix(&mut self.voiced_buf, frame, frame.len());
                assert(frame@.take(frame@.len() as int) =~= frame@);
                proof {
                    lemma_without_spans_push_pad(v0, pad0, frame@, sp0, start, n);
                }
            } else {
                assert(self.voiced_buf@ + self.silence_pad@ =~= self.voiced_buf@);
                extend_from_prefix(&mut self.voiced_buf, frame, frame.len());
                assert(frame@.take(frame@.len() as int) =~= frame@);
                proof {
                    lemma_without_spans_append(v0, frame@, sp0);
                }
            }
            self.silence_run = 0;
            if self.voiced_buf.len() >= MAX_VOICED_SAMPLES {
                let r = self.flush();
                return r;
            }
            assert(self.silence_pad@ =~= Seq::<S>::empty());
            None
        } else if self.voiced_buf.len() > 0 {
            self.silence_run = self.silence_run + 1;
            let limit = self.silence_pad_samples();
            let room = if limit > self.silence_pad.len() {
                limit - self.silence_pad.len()
            } else {
                0
            };
            if room > 0 {
                let take = if room < frame.len() { room } else { frame.len() };
                extend_from_prefix(&mut self.silence_pad, frame, take);
            }
            if self.silence_run >= flush_frames {
                let r = self.flush();
                return r;
            }
            None
        } else {
            None
        }
    }

    /// Feed exactly `frame_size()` samples, classify them with the backend,
    /// and return a chunk when a flush condition is met.
    pub fn push_frame(&mut self, frame: &[S]) -> (r: Option<VadChunk<S>>)
        requires
            old(self).wf(),
            frame@.len() == old(self).spec_frame_len(),
        ensures
            final(self).wf(),
            final(self).spec_frame_len() == old(self).spec_frame_len(),
            (final(self).view(), opt_chunk(r)) == vad_step(
                old(self).view(),
                frame@,
                final(self).last_frame_was_speech,
                old(self).spec_flush_frames(),
            ),
    {
        let is_speech = self.backend.classify_frame(frame);
        self.push_classified_frame(frame, is_speech)
    }

    /// Flush any buffered voiced content, ignoring the silence threshold.
    /// The chunk carries the buffered audio and, for a well-formed
    /// classifier, its speech-only samples.
    pub fn flush(&mut self) -> (r: Option<VadChunk<S>>)
        ensures
            old(self).wf() ==> final(self).wf(),
            final(self).spec_frame_len() == old(self).spec_frame_len(),
            final(self).backend == old(self).backend,
            final(self).last_frame_was_speech == old(self).last_frame_was_speech,
            old(self).voiced_buf@.len() == 0 ==> r.is_none() && final(self).view() == old(self).view(),
            old(self).voiced_buf@.len() > 0 ==> (r matches Some(c) && c.audio@ == old(self).voiced_buf@)
                && final(self).view() == empty_vad_view::<S>() && final(self).pad_spans@.len() == 0,
            spans_within(old(self).pad_spans@, old(self).voiced_buf@.len() as int)
                && old(self).voiced_buf@.len() > 0 ==> opt_chunk(r) == Some(
                ChunkView { audio: old(self).view().voiced, speech: old(self).view().speech },
            ),
    {
        if self.voiced_buf.len() == 0 {
            return None;
        }
        let speech = strip_spans(&self.voiced_buf, &self.pad_spans);
        let mut audio = Vec::new();
        std::mem::swap(&mut audio, &mut self.voiced_buf);
        self.silence_pad.clear();
        self.pad_spans.clear();
        self.silence_run = 0;
        assert(self.view() == empty_vad_view::<S>());
        Some(VadChunk { audio, speech })
    }

    /// Reset all session state, including the backend.
    pub fn reset(&mut self)
        requires
            old(self).wf(),
        ensures
            final(self).wf(),
            final(self).spec_frame_len() == old(self).spec_frame_len(),
            final(self).view() == empty_vad_view::<S>(),
            !final(self).last_frame_was_speech,
    {
        self.backend.reset();
        self.voiced_buf.clear();
        self.silence_pad.clear();
        self.pad_spans.clear();
        self.silence_run = 0;
        self.last_frame_was_speech = false;
        assert(self.view() == empty_vad_view::<S>());
    }
}

} // verus!
