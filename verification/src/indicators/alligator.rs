//! Configuration and failure modes of the alligator indicator.

use vstd::prelude::*;

verus! {

/// Configuration of the alligator indicator.
#[derive(Debug, Clone)]
pub struct AlligatorParams {
    /// Jaw smoothing window; defaults to 13.
    pub jaw_period: Option<usize>,
    /// Jaw forward offset; defaults to 8.
    pub jaw_offset: Option<usize>,
    /// Teeth smoothing window; defaults to 8.
    pub teeth_period: Option<usize>,
    /// Teeth forward offset; defaults to 5.
    pub teeth_offset: Option<usize>,
    /// Lips smoothing window; defaults to 5.
    pub lips_period: Option<usize>,
    /// Lips forward offset; defaults to 3.
    pub lips_offset: Option<usize>,
}

impl Default for AlligatorParams {
    /// The customary settings.
    fn default() -> (r: Self)
        ensures
            r.jaw_period == Some(13usize),
            r.jaw_offset == Some(8usize),
            r.teeth_period == Some(8usize),
            r.teeth_offset == Some(5usize),
            r.lips_period == Some(5usize),
            r.lips_offset == Some(3usize),
    {
        AlligatorParams {
            jaw_period: Some(13),
            jaw_offset: Some(8),
            teeth_period: Some(8),
            teeth_offset: Some(5),
            lips_period: Some(5),
            lips_offset: Some(3),
        }
    }
}

/// The failures of the alligator indicator.
#[derive(Debug, Clone)]
pub enum AlligatorError {
    /// The input was empty.
    NoData,
    /// Every value of a floating-point input failed to convert.
    AllValuesNaN,
    /// The jaw period does not fit the data.
    InvalidJawPeriod {
        /// The configured period.
        period: usize,
        /// The input length.
        data_len: usize,
    },
    /// The jaw offset is inadmissible.
    InvalidJawOffset {
        /// The configured offset.
        offset: usize,
    },
    /// The teeth period does not fit the data.
    InvalidTeethPeriod {
        /// The configured period.
        period: usize,
        /// The input length.
        data_len: usize,
    },
    /// The teeth offset is inadmissible.
    InvalidTeethOffset {
        /// The configured offset.
        offset: usize,
    },
    /// The lips period does not fit the data.
    InvalidLipsPeriod {
        /// The configured period.
        period: usize,
        /// The input length.
        data_len: usize,
    },
    /// The lips offset is inadmissible.
    InvalidLipsOffset {
        /// The configured offset.
        offset: usize,
    },
}

} // verus!
