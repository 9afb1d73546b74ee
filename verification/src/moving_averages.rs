//! Moving-average filters and their configuration records. The
//! adaptive pair and the instantaneous trendline carry the verified
//! cycle engine; the remaining modules hold the configuration and
//! error types of the fixed-window filters of the catalogue.

pub mod cwma;
pub mod ehlers_itrend;
pub mod mama;
pub mod swma;
pub mod trendflex;
pub mod trima;
pub mod vwma;
