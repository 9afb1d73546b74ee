//! Technical-analysis indicator library built around a verified
//! fixed-point implementation of the MESA adaptive cycle engine:
//! the adaptive moving-average pair (MAMA/FAMA) and the companion
//! instantaneous-trendline filter, together with the configuration
//! records of the wider indicator catalogue.
//!
//! Prices and coefficients are carried as fixed-point numbers
//! (`fixed::Fx`, 2^-28 resolution), so every arithmetic step of the
//! engine has an exact integer meaning that the contracts state and
//! the proofs cover.
//!
//! One policy is applied uniformly wherever a filter would read
//! history that does not exist yet: the newest value of the series
//! stands in for the missing sample. The engine states this in its
//! recurrences and the proofs rest on it; among its consequences are
//! constant-input stability from the very first sample.

pub mod fixed;
pub mod ring;
pub mod cycle;
pub mod moving_averages;
pub mod indicators;
