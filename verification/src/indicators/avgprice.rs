//! Configuration of the average price.

use vstd::prelude::*;

verus! {

/// Configuration of the average price; it has no parameters.
#[derive(Debug, Clone)]
pub struct AvgPriceParams;

impl Default for AvgPriceParams {
    /// The only configuration there is.
    fn default() -> (r: Self)
        ensures
            r == (AvgPriceParams),
    {
        AvgPriceParams
    }
}

} // verus!
