//! Configuration of the accumulation/distribution oscillator.

use vstd::prelude::*;

verus! {

/// Configuration of the accumulation/distribution oscillator.
#[derive(Debug, Clone)]
pub struct AdoscParams {
    /// Short smoothing window; defaults to 3.
    pub short_period: Option<usize>,
    /// Long smoothing window; defaults to 10.
    pub long_period: Option<usize>,
}

impl Default for AdoscParams {
    /// The customary settings.
    fn default() -> (r: Self)
        ensures
            r.short_period == Some(3usize),
            r.long_period == Some(10usize),
    {
        AdoscParams {
            short_period: Some(3),
            long_period: Some(10),
        }
    }
}

} // verus!
