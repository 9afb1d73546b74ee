//! Configuration of the double exponential moving average.

use vstd::prelude::*;

verus! {

/// Configuration of the double exponential moving average.
#[derive(Debug, Clone)]
pub struct DemaParams {
    /// Smoothing window; defaults to 30.
    pub period: Option<usize>,
}

impl Default for DemaParams {
    /// The customary settings.
    fn default() -> (r: Self)
        ensures
            r.period == Some(30usize),
    {
        DemaParams {
            period: Some(30),
        }
    }
}

} // verus!
