//! Configuration and failure modes of the sine weighted moving average.

use vstd::prelude::*;

verus! {

/// Configuration of the sine weighted moving average.
#[derive(Debug, Clone)]
pub struct SwmaParams {
    /// Smoothing window; defaults to 5.
    pub period: Option<usize>,
}

impl Default for SwmaParams {
    /// The customary settings.
    fn default() -> (r: Self)
        ensures
            r.period == Some(5usize),
    {
        SwmaParams {
            period: Some(5),
        }
    }
}

/// The failures of the sine weighted moving average.
#[derive(Debug, Clone)]
pub enum SwmaError {
    /// Every value of a floating-point input failed to convert.
    AllValuesNaN,
    /// A window length of zero.
    InvalidPeriod {
        /// The configured window.
        period: usize,
    },
    /// The window exceeds the input length.
    PeriodExceedsLength {
        /// The configured window.
        period: usize,
        /// The input length.
        data_len: usize,
    },
}

} // verus!
