//! Configuration of the aroon indicator.

use vstd::prelude::*;

verus! {

/// Configuration of the aroon indicator.
#[derive(Debug, Clone)]
pub struct AroonParams {
    /// Lookback window; defaults to 14.
    pub length: Option<usize>,
}

impl Default for AroonParams {
    /// The customary settings.
    fn default() -> (r: Self)
        ensures
            r.length == Some(14usize),
    {
        AroonParams {
            length: Some(14),
        }
    }
}

} // verus!
