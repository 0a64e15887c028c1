use std::time::Duration;

use minutes::audio::accumulator::AppendedChunk;
use minutes::commands::pipeline::{
    audio_to_session_ms, CapturePipeline, PipelineAction, FAST_INACTIVITY_TIMEOUT_SECS,
    INACTIVITY_TIMEOUT_SECS,
};

fn frames(n: usize) -> Vec<f32> {
    vec![0.25f32; n]
}

#[test]
fn short_chunks_only_accumulate() {
    let mut p = CapturePipeline::new();
    let step = p.on_chunk(frames(16_000), 0, 1_000);
    assert!(!step.arm_debounce);
    assert!(matches!(step.action, PipelineAction::Idle));
    assert_eq!(p.fast.frames.len(), 16_000);
    assert_eq!(p.slow.frames.len(), 16_000);
}

#[test]
fn two_seconds_of_speech_arm_the_fast_debounce_once() {
    let mut p = CapturePipeline::new();
    let step = p.on_chunk(frames(32_000), 0, 2_000);
    assert!(step.arm_debounce);
    assert!(p.fast_debounce_armed);
    let step = p.on_chunk(frames(16_000), 2_000, 3_000);
    assert!(!step.arm_debounce);
    assert!(p.fast_debounce_armed);
}

#[test]
fn debounce_sends_the_fast_clip_and_slow_path_replaces_its_segments() {
    let mut p = CapturePipeline::new();
    p.on_chunk(frames(32_000), 0, 2_000);
    match p.on_debounce_elapsed() {
        PipelineAction::RunFastPath { clip } => {
            assert_eq!(clip.frames.len(), 32_000);
            assert_eq!(clip.clip_start_ms, 0);
            assert_eq!(clip.clip_end_ms, 2_000);
        }
        _ => panic!("expected a fast-path clip"),
    }
    assert!(!p.fast_debounce_armed);
    assert!(p.fast.is_empty());
    p.record_fast_segments(vec![11, 12]);
    // the slow accumulator still holds the 2 s; 8 more seconds fire it
    let step = p.on_chunk(frames(128_000), 2_000, 10_000);
    assert!(!step.arm_debounce);
    match step.action {
        PipelineAction::RunSlowPath { clip, fast_segment_ids } => {
            assert_eq!(clip.frames.len(), 160_000);
            assert_eq!(clip.clip_start_ms, 0);
            assert_eq!(clip.clip_end_ms, 10_000);
            assert_eq!(fast_segment_ids, vec![11, 12]);
        }
        _ => panic!("expected a slow-path clip"),
    }
    assert!(p.fast.is_empty());
    assert!(p.slow.is_empty());
    assert!(p.pending_fast_segment_ids.is_empty());
    assert!(!p.fast_debounce_armed);
}

#[test]
fn slow_path_cancels_a_pending_fast_debounce() {
    let mut p = CapturePipeline::new();
    assert!(p.on_chunk(frames(32_000), 0, 2_000).arm_debounce);
    let step = p.on_chunk(frames(128_000), 2_000, 10_000);
    assert!(matches!(step.action, PipelineAction::RunSlowPath { .. }));
    assert!(!p.fast_debounce_armed);
    // nothing left for the fast path
    assert!(matches!(p.on_debounce_elapsed(), PipelineAction::Idle));
}

#[test]
fn idle_slow_flush_sends_any_speech_and_covers_the_fast_path() {
    let mut p = CapturePipeline::new();
    p.on_chunk(frames(16_000), 0, 1_000);
    p.record_fast_segments(vec![7]);
    match p.on_idle(true, true) {
        PipelineAction::RunSlowPath { clip, fast_segment_ids } => {
            assert_eq!(clip.frames.len(), 16_000);
            assert_eq!(fast_segment_ids, vec![7]);
        }
        _ => panic!("expected a slow-path clip"),
    }
    assert!(p.fast.is_empty());
    assert!(p.slow.is_empty());
    // Nothing buffered: an idle check does nothing.
    assert!(matches!(p.on_idle(true, true), PipelineAction::Idle));
}

#[test]
fn idle_fast_flush_alone_needs_two_seconds() {
    let mut p = CapturePipeline::new();
    p.on_chunk(frames(16_000), 0, 1_000);
    assert!(matches!(p.on_idle(false, true), PipelineAction::Idle));
    assert_eq!(p.fast.frames.len(), 16_000);
}

#[test]
fn idle_fast_flush_when_slow_is_not_idle() {
    let mut p = CapturePipeline::new();
    p.on_chunk(frames(40_000), 0, 2_500);
    match p.on_idle(false, true) {
        PipelineAction::RunFastPath { clip } => assert_eq!(clip.frames.len(), 40_000),
        _ => panic!("expected a fast-path clip"),
    }
    assert!(!p.fast_debounce_armed);
    assert_eq!(p.slow.frames.len(), 40_000);
}

#[test]
fn inactivity_check_right_after_a_chunk_is_idle() {
    let mut p = CapturePipeline::new();
    p.on_chunk(frames(40_000), 0, 2_500);
    assert!(matches!(p.on_inactivity_check(Duration::from_secs(10), Duration::from_secs(20)), PipelineAction::Idle));
    assert_eq!(p.fast.frames.len(), 40_000);
}

#[test]
fn finish_sends_everything_through_the_slow_path() {
    let mut p = CapturePipeline::new();
    p.on_chunk(frames(1_600), 0, 100);
    p.record_fast_segments(vec![3]);
    match p.finish() {
        PipelineAction::RunSlowPath { clip, fast_segment_ids } => {
            assert_eq!(clip.frames.len(), 1_600);
            assert_eq!(fast_segment_ids, vec![3]);
        }
        _ => panic!("expected a slow-path clip"),
    }
    assert!(p.fast.is_empty() && p.slow.is_empty());
    let mut q: CapturePipeline<f32> = CapturePipeline::new();
    assert!(matches!(q.finish(), PipelineAction::Idle));
}

fn chunk(session_start_ms: u64, audio_start_ms: u64, audio_end_ms: u64) -> AppendedChunk {
    AppendedChunk { session_start_ms, audio_start_ms, audio_end_ms }
}

#[test]
fn audio_offsets_map_back_to_session_time() {
    let chunks = vec![chunk(1_000, 0, 10), chunk(5_000, 10, 20)];
    assert_eq!(audio_to_session_ms(&chunks, 1_000, 0), 1_000);
    assert_eq!(audio_to_session_ms(&chunks, 1_000, 5), 1_005);
    assert_eq!(audio_to_session_ms(&chunks, 1_000, 15), 5_005);
    // the end of the last chunk is extrapolated from it
    assert_eq!(audio_to_session_ms(&chunks, 1_000, 20), 5_010);
    assert_eq!(audio_to_session_ms(&chunks, 1_000, 25), 5_015);
}

#[test]
fn audio_offsets_without_chunks_add_to_the_clip_start() {
    assert_eq!(audio_to_session_ms(&[], 700, 300), 1_000);
    assert_eq!(audio_to_session_ms(&[], u64::MAX - 1, 5), u64::MAX);
}

#[test]
fn finish_with_nothing_buffered_changes_nothing() {
    let mut p: CapturePipeline<f32> = CapturePipeline::new();
    p.record_fast_segments(vec![3, 4]);
    assert!(matches!(p.finish(), PipelineAction::Idle));
    assert_eq!(p.pending_fast_segment_ids, vec![3, 4]);
    assert!(!p.fast_debounce_armed);
}

#[test]
fn inactivity_timeout_is_ten_seconds() {
    assert_eq!(INACTIVITY_TIMEOUT_SECS, 10);
    assert_eq!(FAST_INACTIVITY_TIMEOUT_SECS, 20);
}

#[test]
fn fast_clip_timing_restarts_after_the_slow_path_fires() {
    let mut p = CapturePipeline::new();
    p.on_chunk(frames(16_000), 0, 1_000);
    assert!(matches!(p.on_idle(true, true), PipelineAction::RunSlowPath { .. }));
    assert_eq!(p.fast.clip_start_ms, None);
    assert_eq!(p.fast.clip_end_ms, None);
    assert!(p.fast.last_append_at.is_none());
    p.on_chunk(frames(16_000), 20_000, 21_000);
    assert_eq!(p.fast.clip_start_ms, Some(20_000));
    assert_eq!(p.fast.chunks[0].session_start_ms, 20_000);
}
