//! Configuration of the average directional index rating.

use vstd::prelude::*;

verus! {

/// Configuration of the average directional index rating.
#[derive(Debug, Clone)]
pub struct AdxrParams {
    /// Smoothing window; defaults to 14.
    pub period: Option<usize>,
}

impl Default for AdxrParams {
    /// The customary settings.
    fn default() -> (r: Self)
        ensures
            r.period == Some(14usize),
    {
        AdxrParams {
            period: Some(14),
        }
    }
}

} // verus!
