//! Payloads of the events pushed to the frontend, and the decisions about
//! what they carry.

use vstd::prelude::*;

use crate::db::segments::{segment_status, spec_segment_status};

verus! {

/// A transcript segment added to the live view.
#[derive(Debug, Clone, PartialEq, Eq)]
pub struct SegmentEvent {
    pub id: i64,
    pub session_id: i64,
    pub speaker_id: Option<i64>,
    pub speaker_label: Option<String>,
    pub display_name: Option<String>,
    pub status: String,
    pub start_ms: i64,
    pub end_ms: i64,
    pub transcript_text: String,
}

/// A speaker the frontend should (re)label.
#[derive(Debug, Clone, PartialEq, Eq)]
pub struct SpeakerEvent {
    pub id: i64,
    pub speech_swift_id: i64,
    pub display_name: Option<String>,
}

/// Emitted just before a WAV chunk is posted to speech-swift.
#[derive(Debug, Clone, Copy, PartialEq, Eq)]
pub struct ChunkSentEvent {
    /// Position of this chunk in the recording (ms from session start).
    pub start_ms: u64,
    pub end_ms: u64,
    /// Wall-clock time the chunk was dispatched (Unix ms).
    pub sent_at_ms: u64,
}

/// Emitted after speech-swift returns a successful response for a chunk.
#[derive(Debug, Clone, Copy, PartialEq, Eq)]
pub struct ChunkProcessedEvent {
    /// Matches the `start_ms` of the corresponding `ChunkSentEvent`.
    pub start_ms: u64,
    /// Round-trip time of the speech-swift call (ms).
    pub response_ms: u64,
    pub word_count: u32,
    pub speaker_count: u32,
}

/// Emitted when the slow path resolves a speaker for a pending segment.
#[derive(Debug, Clone, PartialEq, Eq)]
pub struct SegmentSpeakerResolvedEvent {
    pub segment_id: i64,
    pub speaker_id: i64,
    pub speaker_label: Option<String>,
    pub display_name: Option<String>,
}

/// Emitted after speech-swift returns a successful slow-path response.
#[derive(Debug, Clone, Copy, PartialEq, Eq)]
pub struct SlowPathDoneEvent {
    /// Matches the `start_ms` of the corresponding slow-path clip.
    pub start_ms: u64,
    /// Round-trip time of the speech-swift call (ms).
    pub response_ms: u64,
    /// Number of segments in the slow-path response.
    pub segment_count: u32,
}

impl SegmentEvent {
    /// The event for a stored segment; its status follows from whether a
    /// speaker was assigned.
    pub fn new(
        id: i64,
        session_id: i64,
        speaker_id: Option<i64>,
        speaker_label: Option<String>,
        display_name: Option<String>,
        start_ms: i64,
        end_ms: i64,
        transcript_text: String,
    ) -> (ev: SegmentEvent)
        ensures
            ev.id == id,
            ev.session_id == session_id,
            ev.speaker_id == speaker_id,
            ev.speaker_label == speaker_label,
            ev.display_name == display_name,
            ev.status@ == spec_segment_status(speaker_id),
            ev.start_ms == start_ms,
            ev.end_ms == end_ms,
            ev.transcript_text == transcript_text,
    {
        let status = segment_status(speaker_id).to_owned();
        SegmentEvent {
            id,
            session_id,
            speaker_id,
            speaker_label,
            display_name,
            status,
            start_ms,
            end_ms,
            transcript_text,
        }
    }
}

/// A `new_speaker` event is due for a speaker that was just created or that
/// still has no display name.
pub fn speaker_event_needed(is_new: bool, display_name: &Option<String>) -> (needed: bool)
    ensures
        needed == (is_new || display_name is None),
{
    is_new || display_name.is_none()
}

/// Number of distinct speaker ids among the segments of a response (a
/// segment without speaker counts as one more id, `None`).
pub fn distinct_speaker_count(speaker_ids: &[Option<i64>]) -> (n: u32)
    requires
        speaker_ids@.len() <= u32::MAX,
    ensures
        n == speaker_ids@.to_set().len(),
{
    let mut seen: Vec<Option<i64>> = Vec::new();
    let mut i: usize = 0;
    while i < speaker_ids.len()
        invariant
            i <= speaker_ids@.len(),
            seen@.no_duplicates(),
            seen@.to_set() == speaker_ids@.take(i as int).to_set(),
            seen@.len() <= i,
        decreases speaker_ids@.len() - i,
    {
        let id = speaker_ids[i];
        let mut found = false;
        let mut j: usize = 0;
        while j < seen.len()
            invariant
                j <= seen@.len(),
                found == exists|k: int| 0 <= k < j && seen@[k] == id,
            decreases seen@.len() - j,
        {
            if seen[j] == id {
                found = true;
            }
            j = j + 1;
        }
        let ghost before = seen@;
        if !found {
            seen.push(id);
            assert forall|a: int, b: int| 0 <= a < b < seen@.len() implies seen@[a] != seen@[b] by {
                if b == seen@.len() - 1 {
                    assert(before[a] != id);
                } else {
                    assert(before.no_duplicates());
                }
            }
        }
        assert(speaker_ids@.take(i + 1) =~= speaker_ids@.take(i as int).push(id));
        assert(seen@.to_set() =~= speaker_ids@.take(i + 1).to_set()) by {
            assert forall|x: Option<i64>| seen@.to_set().contains(x) <==> speaker_ids@.take(i + 1).to_set().contains(x) by {
                if x == id {
                    if found {
                        let k = choose|k: int| 0 <= k < before.len() && before[k] == id;
                        assert(before.to_set().contains(before[k]));
                    } else {
                        assert(seen@[seen@.len() - 1] == id);
                    }
                    assert(speaker_ids@.take(i + 1)[i as int] == id);
                } else {
                    if seen@.to_set().contains(x) {
                        let k = choose|k: int| 0 <= k < seen@.len() && seen@[k] == x;
                        if !found {
                            assert(k < before.len());
                            assert(before.to_set().contains(before[k]));
                        }
                    }
                    if speaker_ids@.take(i + 1).to_set().contains(x) {
                        let k = choose|k: int| 0 <= k < i + 1 && #[trigger] speaker_ids@.take(i + 1)[k] == x;
                        assert(k < i);
                        assert(speaker_ids@.take(i as int)[k] == x);
                        assert(speaker_ids@.take(i as int).to_set().contains(x));
                        let m = choose|m: int| 0 <= m < before.len() && before[m] == x;
                        if !found {
                            assert(seen@[m] == x);
                        }
                        assert(seen@.contains(x));
                    }
                }
            }
        }
        i = i + 1;
    }
    assert(speaker_ids@.take(speaker_ids@.len() as int) =~= speaker_ids@);
    proof {
        seen@.unique_seq_to_set();
    }
    seen.len() as u32
}

} // verus!
