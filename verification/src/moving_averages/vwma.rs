//! Configuration and failure modes of the volume weighted moving average.

use vstd::prelude::*;

verus! {

/// Configuration of the volume weighted moving average.
#[derive(Debug, Clone)]
pub struct VwmaParams {
    /// Smoothing window; defaults to 20.
    pub period: Option<usize>,
}

impl Default for VwmaParams {
    /// The customary settings.
    fn default() -> (r: Self)
        ensures
            r.period == Some(20usize),
    {
        VwmaParams {
            period: Some(20),
        }
    }
}

/// The failures of the volume weighted moving average.
#[derive(Debug, Clone)]
pub enum VwmaError {
    /// The volume field could not be resolved.
    VolumeFieldError(String),
    /// The window does not fit the data.
    InvalidPeriod {
        /// The configured window.
        period: usize,
        /// The input length.
        data_len: usize,
    },
    /// Price and volume series have different lengths.
    PriceVolumeMismatch {
        /// Length of the price series.
        price_len: usize,
        /// Length of the volume series.
        volume_len: usize,
    },
    /// Every value of a floating-point input failed to convert.
    AllValuesNaN,
}

} // verus!
