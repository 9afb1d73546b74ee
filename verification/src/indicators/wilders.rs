//! Configuration of Wilder's smoothing.

use vstd::prelude::*;

verus! {

/// Configuration of the Wilder's smoothing filter.
#[derive(Debug, Clone)]
pub struct WildersParams {
    /// Smoothing window; defaults to 5.
    pub period: Option<usize>,
}

impl Default for WildersParams {
    /// The customary settings.
    fn default() -> (r: Self)
        ensures
            r.period == Some(5usize),
    {
        WildersParams {
            period: Some(5),
        }
    }
}

} // verus!
