//! Configuration of the triangular moving average.

use vstd::prelude::*;

verus! {

/// Configuration of the triangular moving average.
#[derive(Debug, Clone)]
pub struct TrimaParams {
    /// Smoothing window; defaults to 14.
    pub period: Option<usize>,
}

impl Default for TrimaParams {
    /// The customary settings.
    fn default() -> (r: Self)
        ensures
            r.period == Some(14usize),
    {
        TrimaParams {
            period: Some(14),
        }
    }
}

} // verus!
