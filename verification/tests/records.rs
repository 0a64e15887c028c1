use minutes::audio::VadMode;
use minutes::commands::devices::flag_default_device;
use minutes::commands::health::health_probe_step;
use minutes::commands::speakers::similar_speaker_matches;
use minutes::commands::unix_ms;
use minutes::db::search::effective_limit;
use minutes::db::segments::segment_status;
use minutes::db::sessions::{order_clause, page_offset, SortBy, SortDir};
use minutes::db::speakers::SpeakerWithStats;
use minutes::events::{distinct_speaker_count, speaker_event_needed, SegmentEvent};

#[test]
fn search_limit_defaults_to_50_and_is_capped_at_100() {
    assert_eq!(effective_limit(None), 50);
    assert_eq!(effective_limit(Some(10)), 10);
    assert_eq!(effective_limit(Some(100)), 100);
    assert_eq!(effective_limit(Some(500)), 100);
}

#[test]
fn session_pages_are_one_based() {
    assert_eq!(page_offset(1, 20), 0);
    assert_eq!(page_offset(2, 2), 2);
    assert_eq!(page_offset(0, 20), 0);
    assert_eq!(page_offset(4, 25), 75);
}

#[test]
fn session_order_clauses() {
    assert_eq!(order_clause(SortBy::Date, SortDir::Desc), "created_at DESC");
    assert_eq!(order_clause(SortBy::Date, SortDir::Asc), "created_at ASC");
    assert_eq!(order_clause(SortBy::Duration, SortDir::Desc), "duration_ms DESC");
    assert_eq!(order_clause(SortBy::Duration, SortDir::Asc), "duration_ms ASC");
}

#[test]
fn segments_without_speaker_are_pending() {
    assert_eq!(segment_status(Some(4)), "confirmed");
    assert_eq!(segment_status(None), "pending");
    let ev = SegmentEvent::new(1, 2, None, None, None, 0, 500, "hi".to_string());
    assert_eq!(ev.status, "pending");
    let ev = SegmentEvent::new(1, 2, Some(9), Some("Speaker_9".to_string()), None, 0, 500, "hi".to_string());
    assert_eq!(ev.status, "confirmed");
    assert_eq!(ev.speaker_label.as_deref(), Some("Speaker_9"));
}

#[test]
fn speaker_events_for_new_or_unnamed_speakers() {
    assert!(speaker_event_needed(true, &Some("Ann".to_string())));
    assert!(speaker_event_needed(false, &None));
    assert!(!speaker_event_needed(false, &Some("Ann".to_string())));
}

#[test]
fn distinct_speakers_count_none_once() {
    assert_eq!(distinct_speaker_count(&[]), 0);
    assert_eq!(distinct_speaker_count(&[Some(1), Some(2), Some(1), None, None]), 3);
}

fn local_speaker(id: i64, speech_swift_id: i64) -> SpeakerWithStats {
    SpeakerWithStats {
        id,
        speech_swift_id,
        display_name: None,
        notes: None,
        first_seen_at: 0,
        last_seen_at: 0,
        session_count: 0,
    }
}

#[test]
fn similar_speakers_keep_server_order_and_drop_unknown_ids() {
    let local = vec![local_speaker(1, 30), local_speaker(2, 10), local_speaker(3, 30)];
    let pairs = similar_speaker_matches(&[10, 99, 30], &local);
    assert_eq!(pairs, vec![(0, 1), (2, 0)]);
    assert!(similar_speaker_matches(&[5], &local).is_empty());
}

#[test]
fn default_device_is_flagged_by_name() {
    let names = vec!["Mic A".to_string(), "Mic B".to_string()];
    let devices = flag_default_device(&names, &Some("Mic B".to_string()));
    assert_eq!(devices.len(), 2);
    assert_eq!(devices[0].name, "Mic A");
    assert!(!devices[0].is_default);
    assert!(devices[1].is_default);
    let devices = flag_default_device(&names, &None);
    assert!(devices.iter().all(|d| !d.is_default));
}

#[test]
fn startup_probe_announces_outage_and_recovery_once() {
    let s = health_probe_step(true, false);
    assert!(s.emit_unreachable && !s.emit_reachable && !s.done && !s.previously_reachable);
    let s = health_probe_step(false, false);
    assert!(!s.emit_unreachable && !s.emit_reachable && !s.done);
    let s = health_probe_step(false, true);
    assert!(s.emit_reachable && !s.emit_unreachable && s.done);
    let s = health_probe_step(true, true);
    assert!(!s.emit_reachable && !s.emit_unreachable && s.done);
}

#[test]
fn clock_reads_after_2020() {
    assert!(unix_ms() > 1_577_836_800_000);
}

#[test]
fn vad_mode_defaults_to_webrtc() {
    assert_eq!(VadMode::default(), VadMode::WebRtc);
}
