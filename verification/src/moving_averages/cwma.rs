//! Configuration and failure modes of the cubed weighted moving average.

use vstd::prelude::*;

verus! {

/// Configuration of the cubed weighted moving average.
#[derive(Debug, Clone)]
pub struct CwmaParams {
    /// Smoothing window; defaults to 14.
    pub period: Option<usize>,
}

impl Default for CwmaParams {
    /// The customary settings.
    fn default() -> (r: Self)
        ensures
            r.period == Some(14usize),
    {
        CwmaParams {
            period: Some(14),
        }
    }
}

/// The failures of the cubed weighted moving average.
#[derive(Debug, Clone)]
pub enum CwmaError {
    /// Every value of a floating-point input failed to convert.
    AllValuesNaN,
    /// The window does not fit the data.
    InvalidPeriod {
        /// The configured window.
        period: usize,
        /// The input length.
        data_len: usize,
    },
    /// Fewer usable samples than the window needs.
    NotEnoughValidData {
        /// The least admissible count.
        needed: usize,
        /// The usable count that was found.
        valid: usize,
    },
}

} // verus!
