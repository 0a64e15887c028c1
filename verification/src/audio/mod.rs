pub mod accumulator;
pub mod chunker;
pub mod silero;
pub mod vad;
pub mod wav;

use vstd::prelude::*;

verus! {

/// Which voice-activity detector the capture pipeline uses.
#[derive(Debug, Clone, Copy, PartialEq, Eq)]
pub enum VadMode {
    /// Silero VAD v5 (ONNX model).
    Silero,
    /// WebRTC VAD.
    WebRtc,
}

impl Default for VadMode {
    fn default() -> (m: VadMode)
        ensures
            m == VadMode::WebRtc,
    {
        VadMode::WebRtc
    }
}

} // verus!
