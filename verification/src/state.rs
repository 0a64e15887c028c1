//! Shared application state records.

use vstd::prelude::*;

verus! {

/// Live connection-reachability state of the speech-swift audio-server.
#[derive(Debug, Clone, Copy, PartialEq, Eq)]
pub struct SpeechSwiftStatus {
    pub reachable: bool,
}

} // verus!
