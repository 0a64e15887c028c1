//! Framing parameters of the Silero VAD v5 model.

use vstd::prelude::*;

verus! {

/// Number of samples per frame at 16 kHz (32 ms).
pub const FRAME_SAMPLES: usize = 512;

/// Sample rate sent to the model.
pub const SAMPLE_RATE: i64 = 16_000;

} // verus!
