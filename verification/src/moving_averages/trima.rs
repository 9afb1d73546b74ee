//! Configuration and failure modes of the triangular moving average.

use vstd::prelude::*;

verus! {

/// Configuration of the triangular moving average.
#[derive(Debug, Clone)]
pub struct TrimaParams {
    /// Smoothing window; defaults to 14.
    pub period: Option<usize>,
}

impl Default for TrimaParams {
    /// The customary settings.
    fn default() -> (r: Self)
        ensures
            r.period == Some(14usize),
    {
        TrimaParams {
            period: Some(14),
        }
    }
}

/// The failures of the triangular moving average.
#[derive(Debug, Clone)]
pub enum TrimaError {
    /// Fewer samples than the window needs.
    NotEnoughData {
        /// The least admissible length.
        needed: usize,
        /// The length that was supplied.
        found: usize,
    },
    /// A window of three or fewer samples.
    PeriodTooSmall {
        /// The configured window.
        period: usize,
    },
    /// Every value of a floating-point input failed to convert.
    AllValuesNaN,
    /// The input was empty.
    NoData,
}

} // verus!
