//! Configuration and failure modes of the trendflex filter.

use vstd::prelude::*;

verus! {

/// Configuration of the trendflex filter.
#[derive(Debug, Clone)]
pub struct TrendFlexParams {
    /// Smoothing window; defaults to 20.
    pub period: Option<usize>,
}

impl Default for TrendFlexParams {
    /// The customary settings.
    fn default() -> (r: Self)
        ensures
            r.period == Some(20usize),
    {
        TrendFlexParams {
            period: Some(20),
        }
    }
}

/// The failures of the trendflex filter.
#[derive(Debug, Clone)]
pub enum TrendFlexError {
    /// The input was empty.
    NoDataProvided,
    /// Every value of a floating-point input failed to convert.
    AllValuesNaN,
    /// A window length of zero.
    ZeroTrendFlexPeriod {
        /// The configured window.
        period: usize,
    },
    /// The window exceeds the input length.
    TrendFlexPeriodExceedsData {
        /// The configured window.
        period: usize,
        /// The input length.
        data_len: usize,
    },
}

} // verus!
