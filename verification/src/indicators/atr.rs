//! Configuration of the average true range.

use vstd::prelude::*;

verus! {

/// Configuration of the average true range.
#[derive(Debug, Clone)]
pub struct AtrParams {
    /// Smoothing window; defaults to 14.
    pub length: Option<usize>,
}

impl Default for AtrParams {
    /// The customary settings.
    fn default() -> (r: Self)
        ensures
            r.length == Some(14usize),
    {
        AtrParams {
            length: Some(14),
        }
    }
}

} // verus!
