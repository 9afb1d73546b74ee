//! Configuration and failure modes of the Donchian channel.

use vstd::prelude::*;

verus! {

/// Configuration of the Donchian channel.
#[derive(Debug, Clone)]
pub struct DonchianParams {
    /// Lookback window; defaults to 20.
    pub period: Option<usize>,
}

impl Default for DonchianParams {
    /// The customary settings.
    fn default() -> (r: Self)
        ensures
            r.period == Some(20usize),
    {
        DonchianParams {
            period: Some(20),
        }
    }
}

/// The failures of the Donchian channel.
#[derive(Debug, Clone)]
pub enum DonchianError {
    /// The input was empty.
    EmptyData,
    /// The window does not fit the data.
    InvalidPeriod {
        /// The configured window.
        period: usize,
        /// The input length.
        data_len: usize,
    },
    /// Fewer usable samples than the window needs.
    NotEnoughValidData {
        /// The least admissible count.
        needed: usize,
        /// The usable count that was found.
        valid: usize,
    },
    /// Every value of a floating-point input failed to convert.
    AllValuesNaN,
    /// High and low series have different lengths.
    MismatchedLength,
}

} // verus!
