//! Speakers known to the local store.

use vstd::prelude::*;

verus! {

/// A speaker row, keyed by the audio-server's registry id.
#[derive(Debug, Clone, PartialEq, Eq)]
pub struct Speaker {
    pub id: i64,
    pub speech_swift_id: i64,
    pub display_name: Option<String>,
    pub notes: Option<String>,
    pub first_seen_at: i64,
    pub last_seen_at: i64,
}

/// A speaker row with the number of sessions the speaker appears in.
#[derive(Debug, Clone, PartialEq, Eq)]
pub struct SpeakerWithStats {
    pub id: i64,
    pub speech_swift_id: i64,
    pub display_name: Option<String>,
    pub notes: Option<String>,
    pub first_seen_at: i64,
    pub last_seen_at: i64,
    pub session_count: i64,
}

} // verus!
