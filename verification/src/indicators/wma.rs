//! Configuration of the weighted moving average.

use vstd::prelude::*;

verus! {

/// Configuration of the weighted moving average.
#[derive(Debug, Clone)]
pub struct WmaParams {
    /// Smoothing window; defaults to 30.
    pub period: Option<usize>,
}

impl Default for WmaParams {
    /// The customary settings.
    fn default() -> (r: Self)
        ensures
            r.period == Some(30usize),
    {
        WmaParams {
            period: Some(30),
        }
    }
}

} // verus!
