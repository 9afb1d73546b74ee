//! Configuration of the high-pass filter.

use vstd::prelude::*;

verus! {

/// Configuration of the high-pass filter.
#[derive(Debug, Clone)]
pub struct HighPassParams {
    /// Cutoff period; defaults to 48.
    pub period: Option<usize>,
}

impl Default for HighPassParams {
    /// The customary settings.
    fn default() -> (r: Self)
        ensures
            r.period == Some(48usize),
    {
        HighPassParams {
            period: Some(48),
        }
    }
}

} // verus!
