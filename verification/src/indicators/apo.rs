//! Configuration and failure modes of the absolute price oscillator.

use vstd::prelude::*;

verus! {

/// Configuration of the absolute price oscillator.
#[derive(Debug, Clone)]
pub struct ApoParams {
    /// Short window; defaults to 10.
    pub short_period: Option<usize>,
    /// Long window; defaults to 20.
    pub long_period: Option<usize>,
}

impl Default for ApoParams {
    /// The customary settings.
    fn default() -> (r: Self)
        ensures
            r.short_period == Some(10usize),
            r.long_period == Some(20usize),
    {
        ApoParams {
            short_period: Some(10),
            long_period: Some(20),
        }
    }
}

/// The failures of the absolute price oscillator.
#[derive(Debug, Clone)]
pub enum ApoError {
    /// A window length of zero.
    InvalidPeriod {
        /// The short window.
        short: usize,
        /// The long window.
        long: usize,
    },
    /// The short window is not strictly shorter than the long one.
    ShortPeriodNotLessThanLong {
        /// The short window.
        short: usize,
        /// The long window.
        long: usize,
    },
    /// The input was empty.
    NoData,
    /// Every value of a floating-point input failed to convert.
    AllValuesNaN,
    /// Fewer samples than the long window.
    NotEnoughData {
        /// The least admissible length.
        needed: usize,
        /// The length that was supplied.
        found: usize,
    },
}

} // verus!
