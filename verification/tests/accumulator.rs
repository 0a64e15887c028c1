use std::time::Duration;

use minutes::audio::accumulator::{
    inactivity_flush_due, AppendedChunk, SpeechAccumulator, FAST_SPEECH_TRIGGER_SAMPLES,
    SPEECH_TRIGGER_SAMPLES,
};

fn make_frames(n: usize) -> Vec<f32> {
    vec![0.0f32; n]
}

#[test]
fn new_accumulator_is_empty() {
    let acc: SpeechAccumulator<f32> = SpeechAccumulator::new();
    assert!(acc.is_empty());
    assert!(!acc.should_trigger());
}

#[test]
fn append_sets_clip_bounds() {
    let mut acc = SpeechAccumulator::new();
    acc.append(make_frames(160), 0, 10);
    assert_eq!(acc.clip_start_ms, Some(0));
    assert_eq!(acc.clip_end_ms, Some(10));

    acc.append(make_frames(160), 10, 20);
    // clip_start stays at first append
    assert_eq!(acc.clip_start_ms, Some(0));
    assert_eq!(acc.clip_end_ms, Some(20));
}

#[test]
fn drain_resets_accumulator() {
    let mut acc = SpeechAccumulator::new();
    acc.append(make_frames(160), 0, 10);
    let clip = acc.drain().expect("should have clip");
    assert_eq!(clip.clip_start_ms, 0);
    assert_eq!(clip.clip_end_ms, 10);
    assert!(acc.is_empty());
    assert!(acc.clip_start_ms.is_none());
    assert!(acc.chunks.is_empty());
}

#[test]
fn drain_includes_chunks_with_audio_offsets() {
    let mut acc = SpeechAccumulator::new();
    // 160 frames = 10 ms at 16 kHz
    acc.append(make_frames(160), 0, 10);
    acc.append(make_frames(160), 10, 20);
    let clip = acc.drain().expect("should have clip");
    assert_eq!(clip.chunks.len(), 2);
    assert_eq!(clip.chunks[0].audio_start_ms, 0);
    assert_eq!(clip.chunks[0].audio_end_ms, 10);
    assert_eq!(clip.chunks[1].audio_start_ms, 10);
    assert_eq!(clip.chunks[1].audio_end_ms, 20);
}

#[test]
fn drain_on_empty_returns_none() {
    let mut acc: SpeechAccumulator<f32> = SpeechAccumulator::new();
    assert!(acc.drain().is_none());
}

#[test]
fn should_trigger_when_enough_speech() {
    let mut acc = SpeechAccumulator::new();
    // 30 s of speech at 16 kHz = 480_000 samples
    acc.append(make_frames(480_000), 0, 30_000);
    assert!(acc.should_trigger());
}

#[test]
fn should_not_trigger_below_threshold() {
    let mut acc = SpeechAccumulator::new();
    // 9 s of speech at 16 kHz = 144_000 samples: just below the 10 s trigger.
    acc.append(make_frames(144_000), 0, 9_000);
    assert!(!acc.should_trigger());
}

#[test]
fn inactivity_flush_false_when_empty() {
    let acc: SpeechAccumulator<f32> = SpeechAccumulator::new();
    assert!(!acc.should_flush_for_inactivity(Duration::from_secs(10)));
}

#[test]
fn inactivity_flush_false_before_timeout() {
    let mut acc = SpeechAccumulator::new();
    acc.append(make_frames(160), 0, 10);
    // Immediately after append; elapsed is ~0, well below 10s threshold.
    assert!(!acc.should_flush_for_inactivity(Duration::from_secs(10)));
}

// ---------- Further cases ----------

#[test]
fn trigger_thresholds_are_ten_and_two_seconds_of_speech() {
    assert_eq!(SPEECH_TRIGGER_SAMPLES, 160_000);
    assert_eq!(FAST_SPEECH_TRIGGER_SAMPLES, 32_000);
    let mut acc = SpeechAccumulator::new();
    acc.append(make_frames(159_999), 0, 9_999);
    assert!(!acc.should_trigger());
    acc.append(make_frames(1), 9_999, 10_000);
    assert!(acc.should_trigger());
    assert_eq!(acc.speech_samples(), 160_000);
}

#[test]
fn inactivity_flush_true_after_zero_timeout() {
    let mut acc = SpeechAccumulator::new();
    acc.append(make_frames(160), 0, 10);
    assert!(acc.should_flush_for_inactivity(Duration::from_secs(0)));
}

#[test]
fn inactivity_flush_due_needs_speech_and_elapsed_timeout() {
    assert!(inactivity_flush_due(true, Some(true)));
    assert!(!inactivity_flush_due(true, Some(false)));
    assert!(!inactivity_flush_due(true, None));
    assert!(!inactivity_flush_due(false, Some(true)));
}

#[test]
fn chunk_offsets_follow_the_speech_only_timeline() {
    let mut acc = SpeechAccumulator::new();
    // 24 samples = 1.5 ms: offsets round down
    acc.append(make_frames(24), 1_000, 1_100);
    acc.append(make_frames(8), 5_000, 5_010);
    assert_eq!(
        acc.chunks,
        vec![
            AppendedChunk { session_start_ms: 1_000, audio_start_ms: 0, audio_end_ms: 1 },
            AppendedChunk { session_start_ms: 5_000, audio_start_ms: 1, audio_end_ms: 2 },
        ]
    );
    let clip = acc.drain().unwrap();
    assert_eq!(clip.frames.len(), 32);
    assert_eq!(clip.clip_start_ms, 1_000);
    assert_eq!(clip.clip_end_ms, 5_010);
    assert!(acc.last_append_at.is_none());
}

#[test]
fn default_accumulator_is_empty() {
    let acc: SpeechAccumulator<f32> = SpeechAccumulator::default();
    assert!(acc.is_empty());
    assert!(acc.chunks.is_empty());
    assert_eq!(acc.clip_start_ms, None);
    assert_eq!(acc.clip_end_ms, None);
}
