//! Configuration and failure modes of the accumulation/distribution line.

use vstd::prelude::*;

verus! {

/// Configuration of the accumulation/distribution line; it has no
/// parameters.
#[derive(Debug, Clone)]
pub struct AdParams {}

impl Default for AdParams {
    /// The only configuration there is.
    fn default() -> (r: Self)
        ensures
            r == (AdParams {}),
    {
        AdParams {}
    }
}

/// The failures of the accumulation/distribution line.
#[derive(Debug, Clone)]
pub enum AdError {
    /// A candle field could not be resolved.
    CandleFieldError(String),
    /// The four candle series have different lengths.
    DataLengthMismatch {
        /// Length of the high series.
        high_len: usize,
        /// Length of the low series.
        low_len: usize,
        /// Length of the close series.
        close_len: usize,
        /// Length of the volume series.
        volume_len: usize,
    },
    /// Fewer samples than the line needs.
    NotEnoughData {
        /// The length that was supplied.
        len: usize,
    },
}

} // verus!
