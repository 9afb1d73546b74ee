//! Configuration of the awesome oscillator.

use vstd::prelude::*;

verus! {

/// Configuration of the awesome oscillator.
#[derive(Debug, Clone)]
pub struct AoParams {
    /// Short window; defaults to 5.
    pub short_period: Option<usize>,
    /// Long window; defaults to 34.
    pub long_period: Option<usize>,
}

impl Default for AoParams {
    /// The customary settings.
    fn default() -> (r: Self)
        ensures
            r.short_period == Some(5usize),
            r.long_period == Some(34usize),
    {
        AoParams {
            short_period: Some(5),
            long_period: Some(34),
        }
    }
}

} // verus!
