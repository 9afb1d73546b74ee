//! Configuration and failure modes of the aroon oscillator.

use vstd::prelude::*;

verus! {

/// Configuration of the aroon oscillator.
#[derive(Debug, Clone)]
pub struct AroonOscParams {
    /// Lookback window; defaults to 14.
    pub length: Option<usize>,
}

impl Default for AroonOscParams {
    /// The customary settings.
    fn default() -> (r: Self)
        ensures
            r.length == Some(14usize),
    {
        AroonOscParams {
            length: Some(14),
        }
    }
}

/// The failures of the aroon oscillator.
#[derive(Debug, Clone)]
pub enum AroonOscError {
    /// A candle field could not be resolved.
    CandleFieldError(String),
    /// A lookback window of zero.
    InvalidLength {
        /// The configured window.
        length: usize,
    },
    /// No candles were supplied.
    NoCandles,
    /// One of the high/low slices was empty.
    EmptySlices,
    /// High and low slices have different lengths.
    SlicesLengthMismatch {
        /// Length of the high series.
        high_len: usize,
        /// Length of the low series.
        low_len: usize,
    },
    /// Fewer samples than the window needs.
    NotEnoughData {
        /// The least admissible length.
        required: usize,
        /// The length that was supplied.
        found: usize,
    },
}

} // verus!
