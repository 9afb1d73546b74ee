//! Configuration of the triple exponential moving average.

use vstd::prelude::*;

verus! {

/// Configuration of the triple exponential moving average.
#[derive(Debug, Clone)]
pub struct TemaParams {
    /// Smoothing window; defaults to 9.
    pub period: Option<usize>,
}

impl Default for TemaParams {
    /// The customary settings.
    fn default() -> (r: Self)
        ensures
            r.period == Some(9usize),
    {
        TemaParams {
            period: Some(9),
        }
    }
}

} // verus!
