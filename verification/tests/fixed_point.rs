//! The fixed-point scalar type and the seven-slot ring buffer:
//! exact conversions, boundary rejections, and history reads.

use mesa_filters::cycle::{atan, C_PI2, C_PI4};
use mesa_filters::fixed::{Fx, FX_ABS_MAX, FX_SCALE};
use mesa_filters::ring::Ring7;

#[test]
fn test_from_int_exact() {
    let f = Fx::from_int(42).unwrap();
    assert_eq!(f.raw(), 42 * FX_SCALE);
    let g = Fx::from_int(-7).unwrap();
    assert_eq!(g.raw(), -7 * FX_SCALE);
    assert_eq!(Fx::from_int(0).unwrap().raw(), 0);
}

#[test]
fn test_from_int_out_of_range() {
    // The representable magnitude ends at FX_ABS_MAX.
    assert!(Fx::from_int(4194304).is_some());
    assert!(Fx::from_int(4194305).is_none());
    assert!(Fx::from_int(-4194304).is_some());
    assert!(Fx::from_int(-4194305).is_none());
}

#[test]
fn test_from_ratio_truncates_toward_zero() {
    // 1/20 scaled is 13421772.8; truncation drops the fraction for
    // both signs.
    assert_eq!(Fx::from_ratio(1, 20).unwrap().raw(), 13421772);
    assert_eq!(Fx::from_ratio(-1, 20).unwrap().raw(), -13421772);
    assert_eq!(Fx::from_ratio(1, -20).unwrap().raw(), -13421772);
    assert_eq!(Fx::from_ratio(1, 2).unwrap().raw(), FX_SCALE / 2);
    assert!(Fx::from_ratio(1, 0).is_none());
}

#[test]
fn test_from_bits_exact_dyadics() {
    assert_eq!(
        Fx::from_bits(42.0f64.to_bits()).unwrap(),
        Fx::from_int(42).unwrap()
    );
    assert_eq!(Fx::from_bits(0.5f64.to_bits()).unwrap().raw(), FX_SCALE / 2);
    assert_eq!(
        Fx::from_bits((-1.25f64).to_bits()).unwrap().raw(),
        -(FX_SCALE + FX_SCALE / 4)
    );
    assert_eq!(Fx::from_bits(0.0f64.to_bits()).unwrap().raw(), 0);
    assert_eq!(Fx::from_bits((-0.0f64).to_bits()).unwrap().raw(), 0);
}

#[test]
fn test_from_bits_truncates() {
    // 0.05 is not dyadic: its scaled value 13421772.8 truncates.
    assert_eq!(Fx::from_bits(0.05f64.to_bits()).unwrap().raw(), 13421772);
}

#[test]
fn test_from_bits_rejects_non_finite_and_large() {
    assert!(Fx::from_bits(f64::NAN.to_bits()).is_none());
    assert!(Fx::from_bits(f64::INFINITY.to_bits()).is_none());
    assert!(Fx::from_bits(f64::NEG_INFINITY.to_bits()).is_none());
    assert!(Fx::from_bits(1.0e20f64.to_bits()).is_none());
    assert!(Fx::from_bits((-1.0e20f64).to_bits()).is_none());
    // Subnormals collapse to zero at this resolution.
    assert_eq!(Fx::from_bits(f64::MIN_POSITIVE.to_bits()).unwrap().raw(), 0);
    assert_eq!(Fx::from_bits(1u64).unwrap().raw(), 0);
}

#[test]
fn test_fx_abs_max_is_representable() {
    let top = Fx::from_int(4194304).unwrap();
    assert_eq!(top.raw(), FX_ABS_MAX);
}

#[test]
fn test_ring_reads_recent_history() {
    let mut r = Ring7::new();
    for v in 1..=10i128 {
        r.push(v);
    }
    assert_eq!(r.len(), 10);
    assert_eq!(r.read(0), 10);
    assert_eq!(r.read(1), 9);
    assert_eq!(r.read(2), 8);
    assert_eq!(r.read(6), 4);
}

#[test]
fn test_ring_falls_back_to_newest() {
    // Offsets reaching before the first sample read the newest value.
    let mut r = Ring7::new();
    r.push(5);
    assert_eq!(r.read(0), 5);
    assert_eq!(r.read(3), 5);
    assert_eq!(r.read(6), 5);
    r.push(9);
    assert_eq!(r.read(0), 9);
    assert_eq!(r.read(1), 5);
    assert_eq!(r.read(2), 9);
}

#[test]
fn test_atan_exact_values() {
    // At an argument of exactly one the polynomial collapses to
    // pi/4; the approximation is odd and zero at zero.
    assert_eq!(atan(FX_SCALE), C_PI4);
    assert_eq!(atan(-FX_SCALE), -C_PI4);
    assert_eq!(atan(0), 0);
    assert_eq!(atan(12345678), -atan(-12345678));
}

#[test]
fn test_atan_reciprocal_branch() {
    // Far outside one the arctangent approaches a right angle.
    let big = 1_000_000 * FX_SCALE;
    assert!(atan(big) < C_PI2);
    assert!(atan(big) > C_PI2 - FX_SCALE / 1000);
    assert_eq!(atan(big), -atan(-big));
}
