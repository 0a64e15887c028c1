//! Records returned by the speech-swift audio-server.

use vstd::prelude::*;

verus! {

/// A speaker record returned by `GET /registry/speakers`.
#[derive(Debug, Clone, PartialEq, Eq)]
pub struct SpeakerRecord {
    pub id: i64,
    pub display_name: Option<String>,
    pub notes: Option<String>,
}

} // verus!
