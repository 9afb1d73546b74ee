//! Configuration and failure modes of the accelerator oscillator.

use vstd::prelude::*;

verus! {

/// Configuration of the accelerator oscillator; it has no
/// parameters.
#[derive(Debug, Clone)]
pub struct AcoscParams {}

impl Default for AcoscParams {
    /// The only configuration there is.
    fn default() -> (r: Self)
        ensures
            r == (AcoscParams {}),
    {
        AcoscParams {}
    }
}

/// The failures of the accelerator oscillator.
#[derive(Debug, Clone)]
pub enum AcoscError {
    /// A candle field could not be resolved.
    CandleFieldError(String),
    /// High and low series have different lengths.
    LengthMismatch {
        /// Length of the high series.
        high_len: usize,
        /// Length of the low series.
        low_len: usize,
    },
    /// Fewer samples than the oscillator needs.
    NotEnoughData {
        /// The least admissible length.
        required: usize,
        /// The length that was supplied.
        actual: usize,
    },
}

} // verus!
