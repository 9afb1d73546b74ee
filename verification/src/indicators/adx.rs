//! Configuration of the average directional index.

use vstd::prelude::*;

verus! {

/// Configuration of the average directional index.
#[derive(Debug, Clone)]
pub struct AdxParams {
    /// Smoothing window; defaults to 14.
    pub period: Option<usize>,
}

impl Default for AdxParams {
    /// The customary settings.
    fn default() -> (r: Self)
        ensures
            r.period == Some(14usize),
    {
        AdxParams {
            period: Some(14),
        }
    }
}

} // verus!
