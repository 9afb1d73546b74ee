//! Configuration and error types of the indicator catalogue: the
//! records with which each indicator is asked for, and the failures
//! it can report.

pub mod acosc;
pub mod ad;
pub mod adosc;
pub mod adx;
pub mod adxr;
pub mod alligator;
pub mod ao;
pub mod apo;
pub mod aroon;
pub mod aroonosc;
pub mod atr;
pub mod avgprice;
pub mod dema;
pub mod donchian;
pub mod highpass;
pub mod kama;
pub mod pattern_recognition;
pub mod tema;
pub mod trima;
pub mod wilders;
pub mod wma;
