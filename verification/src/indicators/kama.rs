//! Configuration of the Kaufman adaptive moving average.

use vstd::prelude::*;

verus! {

/// Configuration of the Kaufman adaptive moving average.
#[derive(Debug, Clone)]
pub struct KamaParams {
    /// Efficiency window; defaults to 30.
    pub period: Option<usize>,
}

impl Default for KamaParams {
    /// The customary settings.
    fn default() -> (r: Self)
        ensures
            r.period == Some(30usize),
    {
        KamaParams {
            period: Some(30),
        }
    }
}

} // verus!
