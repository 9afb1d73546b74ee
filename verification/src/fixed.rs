//! Fixed-point scalars.
//!
//! Every real quantity of the cycle engine (prices, filter outputs,
//! smoothing coefficients, periods, phases) is carried as an `i128`
//! holding the value scaled by `FX_SCALE` (2^28). All divisions round
//! toward zero (`s_tdiv`), so each arithmetic step has one exact
//! integer meaning that the contracts can state.

use vstd::prelude::*;
use vstd::arithmetic::div_mod::{
    lemma_basic_div, lemma_div_is_ordered, lemma_div_multiples_vanish, lemma_div_nonincreasing,
    lemma_div_pos_is_pos, lemma_multiply_divide_le, lemma_multiply_divide_lt,
};
use vstd::arithmetic::power2::{
    lemma2_to64, lemma2_to64_rest, lemma_pow2_strictly_increases, pow2,
};
use vstd::bits::lemma_u64_shr_is_div;

verus! {

/// The fixed-point scale: values represent `raw / FX_SCALE` (2^28).
pub const FX_SCALE: i128 = 268435456;

/// Largest magnitude a `Fx` may carry (2^50 raw, about 4.19 million
/// in real terms). Keeping scalars inside this range is what lets the
/// whole engine be proved free of overflow.
pub const FX_ABS_MAX: i128 = 1125899906842624;

/// The raw values a `Fx` may hold.
pub open spec fn fx_bounded(v: int) -> bool {
    -(FX_ABS_MAX as int) <= v <= FX_ABS_MAX as int
}

/// Absolute value.
pub open spec fn s_abs(a: int) -> int {
    if a >= 0 {
        a
    } else {
        -a
    }
}

/// Division rounding toward zero, the rounding used by every stage of
/// the engine. Defined for positive divisors.
pub open spec fn s_tdiv(a: int, b: int) -> int {
    if a >= 0 {
        a / b
    } else {
        -((-a) / b)
    }
}

/// `s_tdiv` keeps the dividend's sign and never grows a magnitude.
pub proof fn lemma_tdiv_mag(a: int, b: int)
    requires
        b >= 1,
    ensures
        s_abs(s_tdiv(a, b)) <= s_abs(a),
        a >= 0 ==> s_tdiv(a, b) >= 0,
        a <= 0 ==> s_tdiv(a, b) <= 0,
{
    if a >= 0 {
        lemma_div_pos_is_pos(a, b);
        lemma_div_nonincreasing(a, b);
    } else {
        lemma_div_pos_is_pos(-a, b);
        lemma_div_nonincreasing(-a, b);
    }
}

/// A bound on the dividend gives a bound on the quotient:
/// `|a| <= b * c` implies `|s_tdiv(a, b)| <= c`.
pub proof fn lemma_tdiv_le(a: int, b: int, c: int)
    requires
        b >= 1,
        s_abs(a) <= b * c,
    ensures
        s_abs(s_tdiv(a, b)) <= c,
{
    if a >= 0 {
        lemma_div_pos_is_pos(a, b);
        lemma_multiply_divide_le(a, b, c);
    } else {
        lemma_div_pos_is_pos(-a, b);
        lemma_multiply_divide_le(-a, b, c);
    }
}

/// The strict form: `|a| < b * c` implies `|s_tdiv(a, b)| < c`.
pub proof fn lemma_tdiv_lt(a: int, b: int, c: int)
    requires
        b >= 1,
        s_abs(a) < b * c,
    ensures
        s_abs(s_tdiv(a, b)) < c,
{
    if a >= 0 {
        lemma_div_pos_is_pos(a, b);
        lemma_multiply_divide_lt(a, b, c);
    } else {
        lemma_div_pos_is_pos(-a, b);
        lemma_multiply_divide_lt(-a, b, c);
    }
}

/// Exact multiples divide without loss: `s_tdiv(k * b, b) == k`.
pub proof fn lemma_tdiv_exact(k: int, b: int)
    requires
        b >= 1,
    ensures
        s_tdiv(k * b, b) == k,
{
    if k >= 0 {
        lemma_div_multiples_vanish(k, b);
        assert(k * b == b * k) by (nonlinear_arith);
        assert(k * b >= 0) by (nonlinear_arith)
            requires
                k >= 0 && b >= 1,
        ;
    } else {
        lemma_div_multiples_vanish(-k, b);
        assert(-(k * b) == b * (-k)) by (nonlinear_arith);
        assert(k * b < 0) by (nonlinear_arith)
            requires
                k < 0 && b >= 1,
        ;
    }
}

/// A nonnegative dividend between two multiples of the divisor gives
/// a quotient between the two factors.
pub proof fn lemma_tdiv_range(a: int, b: int, lo: int, hi: int)
    requires
        b >= 1,
        a >= 0,
        lo * b <= a,
        a <= hi * b,
        lo >= 0,
    ensures
        lo <= s_tdiv(a, b) <= hi,
{
    lemma_div_is_ordered(lo * b, a, b);
    lemma_div_is_ordered(a, hi * b, b);
    lemma_div_multiples_vanish(lo, b);
    lemma_div_multiples_vanish(hi, b);
    assert(lo * b == b * lo) by (nonlinear_arith);
    assert(hi * b == b * hi) by (nonlinear_arith);
}

/// Magnitudes multiply: `|a| <= aa` and `|b| <= bb` give `|a * b| <= aa * bb`.
pub proof fn lemma_mul_abs(a: int, b: int, aa: int, bb: int)
    requires
        s_abs(a) <= aa,
        s_abs(b) <= bb,
    ensures
        s_abs(a * b) <= aa * bb,
{
    assert(s_abs(a * b) <= aa * bb) by (nonlinear_arith)
        requires
            s_abs(a) <= aa,
            s_abs(b) <= bb,
    ;
}

/// Truncated division on machine integers; matches `s_tdiv`.
pub fn tdiv(a: i128, b: i128) -> (r: i128)
    requires
        1 <= b,
        i128::MIN < a,
    ensures
        r as int == s_tdiv(a as int, b as int),
        s_abs(r as int) <= s_abs(a as int),
{
    proof {
        lemma_tdiv_mag(a as int, b as int);
    }
    match a.checked_div(b) {
        Some(q) => q,
        None => {
            proof {
                assert(false);
            }
            0
        },
    }
}

/// A fixed-point number: `raw / FX_SCALE` with `|raw| <= FX_ABS_MAX`.
#[derive(Clone, Copy, Debug, PartialEq, Eq, Structural)]
pub struct Fx {
    raw: i128,
}

impl View for Fx {
    type V = int;

    closed spec fn view(&self) -> int {
        self.raw as int
    }
}

impl Fx {
    #[verifier::type_invariant]
    spec fn type_inv(self) -> bool {
        fx_bounded(self.raw as int)
    }

    /// The raw scaled integer.
    pub fn raw(&self) -> (r: i128)
        ensures
            r as int == self@,
            fx_bounded(r as int),
    {
        proof {
            use_type_invariant(self);
        }
        self.raw
    }

    /// Wrap a raw scaled value known to be in range.
    pub(crate) fn from_raw(raw: i128) -> (r: Fx)
        requires
            fx_bounded(raw as int),
        ensures
            r@ == raw as int,
    {
        Fx { raw }
    }

    /// Fixed-point zero.
    pub fn zero() -> (r: Fx)
        ensures
            r@ == 0,
    {
        Fx { raw: 0 }
    }

    /// The value `i`, exactly, if it is representable.
    pub fn from_int(i: i64) -> (r: Option<Fx>)
        ensures
            match r {
                Some(f) => f@ == i * FX_SCALE && fx_bounded(i * FX_SCALE),
                None => !fx_bounded(i * FX_SCALE),
            },
    {
        let scaled: i128 = (i as i128) * FX_SCALE;
        if -FX_ABS_MAX <= scaled && scaled <= FX_ABS_MAX {
            Some(Fx { raw: scaled })
        } else {
            None
        }
    }

    /// The ratio `num / den` rounded toward zero, if `den` is nonzero
    /// and the result is representable.
    pub fn from_ratio(num: i64, den: i64) -> (r: Option<Fx>)
        ensures
            match r {
                Some(f) => den != 0 && f@ == s_ratio(num as int, den as int) && fx_bounded(
                    s_ratio(num as int, den as int),
                ),
                None => den == 0 || !fx_bounded(s_ratio(num as int, den as int)),
            },
    {
        if den == 0 {
            return None;
        }
        let n128: i128 = num as i128;
        let d128: i128 = den as i128;
        let nmag: i128 = if n128 < 0 {
            -n128
        } else {
            n128
        };
        let dmag: i128 = if d128 < 0 {
            -d128
        } else {
            d128
        };
        let mag: i128 = tdiv(nmag * FX_SCALE, dmag);
        let same_sign: bool = (num < 0) == (den < 0);
        let scaled: i128 = if same_sign {
            mag
        } else {
            -mag
        };
        proof {
            lemma_tdiv_mag(nmag as int * FX_SCALE as int, dmag as int);
        }
        if -FX_ABS_MAX <= scaled && scaled <= FX_ABS_MAX {
            Some(Fx { raw: scaled })
        } else {
            None
        }
    }
}

/// The fixed-point reading of an IEEE 754 double given by its bits:
/// `None` for NaN, infinities and magnitudes beyond `FX_ABS_MAX`,
/// otherwise the value scaled by `FX_SCALE` and truncated toward
/// zero.
pub open spec fn f64_bits_to_fx(bits: u64) -> Option<int> {
    let exp = (bits >> 52u64) & 0x7ff;
    let frac = bits & 0xfffffffffffff;
    let neg = (bits >> 63u64) == 1u64;
    if exp == 2047 {
        None
    } else if exp >= 1047 {
        None
    } else {
        let sig = if exp == 0 {
            frac as int
        } else {
            frac as int + 0x10000000000000
        };
        let k = (1047 - (if exp == 0 {
            1int
        } else {
            exp as int
        })) as nat;
        let mag = sig / pow2(k) as int;
        if mag > FX_ABS_MAX as int {
            None
        } else if neg {
            Some(-mag)
        } else {
            Some(mag)
        }
    }
}

impl Fx {
    /// Read an IEEE 754 double from its bits: the scaled, truncated
    /// value when it is finite and representable, `None` for NaN,
    /// infinities and out-of-range magnitudes. The exponent and
    /// significand are decoded by plain bit arithmetic; a double with
    /// biased exponent 1047 or more is already beyond `FX_ABS_MAX`.
    pub fn from_bits(bits: u64) -> (r: Option<Fx>)
        ensures
            match r {
                Some(f) => f64_bits_to_fx(bits) == Some(f@),
                None => f64_bits_to_fx(bits) is None,
            },
    {
        let exp: u64 = (bits >> 52u64) & 0x7ff;
        let frac: u64 = bits & 0xfffffffffffff;
        let neg: bool = (bits >> 63u64) == 1;
        if exp >= 1047 {
            return None;
        }
        proof {
            assert(frac < 0x10000000000000) by (bit_vector)
                requires
                    frac == bits & 0xfffffffffffff,
            ;
        }
        let sig: u64 = if exp == 0 {
            frac
        } else {
            frac + 0x10000000000000
        };
        let e: u64 = if exp == 0 {
            1
        } else {
            exp
        };
        let k: u64 = 1047 - e;
        let mag: u64 = if k >= 64 {
            proof {
                lemma2_to64();
                lemma2_to64_rest();
                lemma_pow2_strictly_increases(53, k as nat);
                lemma_basic_div(sig as int, pow2(k as nat) as int);
            }
            0
        } else {
            proof {
                lemma_u64_shr_is_div(sig, k);
            }
            sig >> k
        };
        let m: i128 = mag as i128;
        if m > FX_ABS_MAX {
            return None;
        }
        if neg {
            Some(Fx { raw: -m })
        } else {
            Some(Fx { raw: m })
        }
    }
}

/// The scaled, truncated value of the ratio `n / d` (`d` nonzero).
pub open spec fn s_ratio(n: int, d: int) -> int {
    if (n < 0) == (d < 0) {
        s_tdiv(s_abs(n) * FX_SCALE, s_abs(d))
    } else {
        -s_tdiv(s_abs(n) * FX_SCALE, s_abs(d))
    }
}

} // verus!
