use std::collections::VecDeque;

use minutes::audio::vad::{VadBackend, VadClassifier, WebRtcBackend};

fn silent_frame_160() -> Vec<i16> {
    vec![0i16; 160]
}

fn voiced_frame_160() -> Vec<i16> {
    // 440 Hz sine at half scale, converted to 16-bit PCM.
    (0..160)
        .map(|i| {
            let s = (2.0 * std::f32::consts::PI * 440.0 * i as f32 / 16_000.0).sin() * 0.5;
            (s * 32_767.0).clamp(-32_768.0, 32_767.0) as i16
        })
        .collect()
}

#[test]
fn webrtc_frame_size_is_160() {
    let b = WebRtcBackend::new();
    assert_eq!(b.frame_size(), 160);
}

#[test]
fn silence_flush_frames_webrtc() {
    let vad = VadClassifier::new(WebRtcBackend::new());
    // 500 ms / 10 ms = 50 frames
    assert_eq!(vad.silence_flush_frames(), 50);
}

#[test]
fn no_flush_on_leading_silence() {
    let mut vad = VadClassifier::new(WebRtcBackend::new());
    for _ in 0..60 {
        assert!(vad.push_frame(&silent_frame_160()).is_none());
    }
    assert!(vad.voiced_buf.is_empty());
}

#[test]
fn flush_triggers_after_silence_threshold() {
    let mut vad = VadClassifier::new(WebRtcBackend::new());
    for _ in 0..10 {
        vad.push_frame(&voiced_frame_160());
    }
    let mut flushed = None;
    for _ in 0..50 {
        flushed = vad.push_frame(&silent_frame_160());
        if flushed.is_some() {
            break;
        }
    }
    // webrtc-vad may classify the sine as non-speech; that is acceptable.
    let _ = flushed;
}

#[test]
fn explicit_flush_drains_buffer() {
    let mut vad = VadClassifier::new(WebRtcBackend::new());
    vad.voiced_buf.extend(voiced_frame_160());
    let chunk = vad.flush();
    assert!(chunk.is_some());
    assert!(vad.voiced_buf.is_empty());
}

#[test]
fn flush_empty_returns_none() {
    let mut vad = VadClassifier::new(WebRtcBackend::new());
    assert!(vad.flush().is_none());
}

#[test]
fn reset_clears_state() {
    let mut vad = VadClassifier::new(WebRtcBackend::new());
    vad.voiced_buf.extend(voiced_frame_160());
    vad.silence_run = 10;
    vad.reset();
    assert!(vad.voiced_buf.is_empty());
    assert_eq!(vad.silence_run, 0);
    assert!(vad.silence_pad.is_empty());
}

// ---------- Mock backend for deterministic testing ----------

struct MockBackend {
    frame_size: usize,
    /// Sequence of responses to return for each classify_frame call.
    responses: VecDeque<bool>,
}

impl MockBackend {
    fn new(frame_size: usize, responses: Vec<bool>) -> Self {
        Self { frame_size, responses: responses.into() }
    }
}

impl VadBackend<f32> for MockBackend {
    fn spec_frame_size(&self) -> usize {
        self.frame_size()
    }

    fn frame_size(&self) -> usize {
        self.frame_size
    }
    fn classify_frame(&mut self, _frame: &[f32]) -> bool {
        self.responses.pop_front().unwrap_or(false)
    }
    fn reset(&mut self) {
        self.responses.clear();
    }
}

#[test]
fn mock_voiced_then_silence_flushes() {
    // 10 voiced frames (512 samples each, 32 ms) then 16 silent ones should
    // trigger a flush at the 15th silence frame (500 ms threshold).
    let frame_size = 512;
    let voiced: Vec<bool> = vec![true; 10];
    let silent: Vec<bool> = vec![false; 20];
    let responses = [voiced, silent].concat();
    let backend = MockBackend::new(frame_size, responses);
    let mut vad = VadClassifier::new(backend);

    let frame = vec![0.0f32; frame_size];
    for _ in 0..10 {
        assert!(vad.push_frame(&frame).is_none());
    }
    assert_eq!(vad.voiced_buf.len(), 10 * frame_size);

    // frame_ms = 512 * 1000 / 16000 = 32 ms; 500 / 32 = 15 frames
    let expected_flush_frames = vad.silence_flush_frames();
    assert_eq!(expected_flush_frames, 15);

    let mut flushed = None;
    for i in 0..20 {
        flushed = vad.push_frame(&frame);
        if flushed.is_some() {
            assert_eq!(i, (expected_flush_frames - 1) as usize);
            break;
        }
    }
    assert!(flushed.is_some(), "should have flushed after silence threshold");
}

#[test]
fn mock_silence_pad_prepended_on_resume() {
    let frame_size = 160;
    // voiced, silent, voiced: the silence pad is prepended on the second voiced frame
    let responses = vec![true, false, true];
    let backend = MockBackend::new(frame_size, responses);
    let mut vad = VadClassifier::new(backend);

    let frame = vec![0.1f32; frame_size];
    vad.push_frame(&frame); // voiced
    vad.push_frame(&frame); // silent -> goes into silence_pad
    let before_len = vad.voiced_buf.len();
    vad.push_frame(&frame); // voiced again -> silence_pad prepended
    assert!(vad.voiced_buf.len() >= before_len + 2 * frame_size);
}

// ---------- Further cases ----------

#[test]
fn classified_frames_emit_voiced_audio_with_padding() {
    let mut vad: VadClassifier<i16, WebRtcBackend> = VadClassifier::new(WebRtcBackend::new());
    let a = vec![1i16; 160];
    let b = vec![2i16; 160];
    assert!(vad.push_classified_frame(&a, true).is_none());
    assert!(vad.push_classified_frame(&b, false).is_none());
    assert_eq!(vad.silence_pad.len(), 160);
    assert!(vad.push_classified_frame(&a, true).is_none());
    // voiced, pad, voiced
    assert_eq!(vad.voiced_buf.len(), 480);
    assert_eq!(&vad.voiced_buf[160..320], &b[..]);
    assert!(vad.silence_pad.is_empty());
    assert!(vad.last_frame_was_speech);
    assert_eq!(vad.pad_spans, vec![(160, 160)]);
    // The chunk's audio keeps the pad; its speech leaves it out.
    let chunk = vad.flush().expect("voiced content");
    assert_eq!(chunk.audio.len(), 480);
    assert_eq!(chunk.speech, [a.clone(), a.clone()].concat());
    assert!(vad.pad_spans.is_empty());
}

#[test]
fn fifty_silent_frames_flush_without_the_pad() {
    let mut vad: VadClassifier<i16, WebRtcBackend> = VadClassifier::new(WebRtcBackend::new());
    let voiced = vec![7i16; 160];
    let silent = vec![0i16; 160];
    assert!(vad.push_classified_frame(&voiced, true).is_none());
    for _ in 0..49 {
        assert!(vad.push_classified_frame(&silent, false).is_none());
    }
    // the pad holds at most 200 ms = 3200 samples
    assert_eq!(vad.silence_pad.len(), 3200);
    let chunk = vad.push_classified_frame(&silent, false).expect("flush at 50 silent frames");
    assert_eq!(chunk.audio, voiced);
    assert_eq!(chunk.speech, voiced);
    assert!(vad.voiced_buf.is_empty());
    assert!(vad.silence_pad.is_empty());
    assert_eq!(vad.silence_run, 0);
}

#[test]
fn thirty_seconds_of_speech_flush_at_the_cap() {
    let mut vad: VadClassifier<i16, WebRtcBackend> = VadClassifier::new(WebRtcBackend::new());
    let frame = vec![3i16; 160];
    // 480_000 / 160 = 3000 frames reach the cap exactly
    for _ in 0..2999 {
        assert!(vad.push_classified_frame(&frame, true).is_none());
    }
    let chunk = vad.push_classified_frame(&frame, true).expect("hard cap");
    assert_eq!(chunk.audio.len(), 480_000);
    assert_eq!(chunk.speech.len(), 480_000);
    assert!(vad.voiced_buf.is_empty());
}

#[test]
fn silence_pad_samples_is_200_ms() {
    let vad: VadClassifier<i16, WebRtcBackend> = VadClassifier::new(WebRtcBackend::new());
    assert_eq!(vad.silence_pad_samples(), 3200);
    assert_eq!(vad.frame_size(), 160);
}

#[test]
fn webrtc_backend_classifies_silence_as_silence() {
    let mut b = WebRtcBackend::new();
    assert!(!b.classify_frame(&silent_frame_160()));
    // an empty frame is treated as silence
    assert!(!b.classify_frame(&[]));
}

#[test]
fn default_webrtc_backend_uses_ten_ms_frames() {
    let b = WebRtcBackend::default();
    assert_eq!(b.frame_size(), 160);
}

#[test]
fn webrtc_backend_treats_unsupported_frame_lengths_as_silence() {
    let mut b = WebRtcBackend::new();
    assert!(!b.classify_frame(&[]));
    assert!(!b.classify_frame(&voiced_frame_160()[..100]));
    let long: Vec<i16> = voiced_frame_160().into_iter().cycle().take(170).collect();
    assert!(!b.classify_frame(&long));
}

#[test]
fn default_webrtc_backend_accepts_sixteen_khz_frames_only() {
    let mut b = WebRtcBackend::default();
    // 10 ms at 8 kHz is not a frame length the 16 kHz detector accepts.
    assert!(!b.classify_frame(&voiced_frame_160()[..80]));
}
