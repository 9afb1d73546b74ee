//! The shared adaptive cycle engine: price smoothing, the Hilbert
//! quadrature approximation, the dominant-cycle period estimator and
//! the phase stage. One step consumes one price sample and updates
//! the whole filter state; the adaptive average pair and the
//! instantaneous trendline both drive this engine and read the
//! period, phase and delta-phase it maintains.
//!
//! `CycleM` is the mathematical state, `cycle_next` the defining
//! recurrence, and `cycle_run` its fold over a price sequence. The
//! executable `CycleState::step` is proved to track `cycle_next`
//! exactly.

use vstd::prelude::*;
use crate::fixed::{
    lemma_mul_abs, lemma_tdiv_le, lemma_tdiv_mag, lemma_tdiv_range, s_abs, s_tdiv, tdiv,
    FX_ABS_MAX, FX_SCALE,
};
use crate::ring::{hread, Ring7};

verus! {

/// Hilbert coefficient 0.0962.
pub const C_HIL_A: i128 = 25823491;

/// Hilbert coefficient 0.5769.
pub const C_HIL_B: i128 = 154860415;

/// Offset 0.54 of the period-dependent multiplier.
pub const C_054: i128 = 144955146;

/// Pi over four.
pub const C_PI4: i128 = 210828714;

/// The 0.273 coefficient of the arctangent approximation.
pub const C_N2: i128 = 73282879;

/// Pi over two.
pub const C_PI2: i128 = 421657428;

/// Two pi.
pub const TWO_PI_FX: i128 = 1686629713;

/// Degrees per radian, 180 over pi.
pub const C_DEG: i128 = 15380218700;

/// Least admissible dominant-cycle period, 6 samples.
pub const PERIOD_MIN: i128 = 1610612736;

/// Greatest admissible dominant-cycle period, 50 samples.
pub const PERIOD_MAX: i128 = 13421772800;

/// Magnitude bound on detrender and delayed in-phase samples.
pub const B_DET: i128 = 0x40000000000000;

/// Magnitude bound on quadrature samples.
pub const B_Q1: i128 = 0x400000000000000;

/// Magnitude bound on the smoothed second-stage components.
pub const B_2: i128 = 0x4000000000000000;

/// Magnitude bound on the smoothed real and imaginary parts.
pub const B_RE: i128 = 0x2000000000000000000000000;

/// Magnitude bound on the arctangent value.
pub const ATAN_B: i128 = 1073741824;

/// Magnitude bound on the phase angle (degrees, scaled).
pub const B_PH: i128 = 61520874800;

/// Greatest delta-phase value.
pub const DP_B: i128 = 123041749600;

/// The four-tap weighted smoother: `(4 a + 3 b + 2 c + d) / 10`.
pub open spec fn s_wma4(a: int, b: int, c: int, d: int) -> int {
    s_tdiv(4 * a + 3 * b + 2 * c + d, 10)
}

/// The Hilbert combination of four samples spaced two steps apart.
pub open spec fn s_hilraw(a: int, b: int, c: int, d: int) -> int {
    s_tdiv(C_HIL_A * a + C_HIL_B * b - C_HIL_B * c - C_HIL_A * d, FX_SCALE as int)
}

/// The period-dependent multiplier `0.075 * period + 0.54`.
pub open spec fn s_mult(period: int) -> int {
    s_tdiv(3 * period, 40) + C_054
}

/// Fixed-point product `h * m`.
pub open spec fn s_scale(h: int, m: int) -> int {
    s_tdiv(h * m, FX_SCALE as int)
}

/// The 0.2 / 0.8 smoothing blend.
pub open spec fn s_blend15(a: int, b: int) -> int {
    s_tdiv(a + 4 * b, 5)
}

/// The 0.33 / 0.67 display-period blend.
pub open spec fn s_blend33(a: int, b: int) -> int {
    s_tdiv(33 * a + 67 * b, 100)
}

/// Fixed-point quotient `a / b` for nonzero `b`.
pub open spec fn s_fxdiv(a: int, b: int) -> int {
    if b >= 0 {
        s_tdiv(a * FX_SCALE, b)
    } else {
        -s_tdiv(a * FX_SCALE, -b)
    }
}

/// The polynomial arctangent core, for arguments within one.
pub open spec fn s_atan_raw(x: int) -> int {
    s_tdiv((C_PI4 + C_N2 - s_tdiv(C_N2 * s_abs(x), FX_SCALE as int)) * x, FX_SCALE as int)
}

/// The fast arctangent: the polynomial core inside one, and the
/// reflected reciprocal form outside.
pub open spec fn s_atan(x: int) -> int {
    if s_abs(x) > FX_SCALE {
        let sign = if x >= 0 {
            C_PI2 as int
        } else {
            -C_PI2
        };
        sign - s_atan_raw(s_fxdiv(FX_SCALE as int, x))
    } else {
        s_atan_raw(x)
    }
}

/// The adaptive smoothing coefficient: `fast / delta_phase`, held
/// above `slow` and capped at `fast`.
pub open spec fn s_alpha(fast: int, slow: int, dp: int) -> int {
    let a = s_tdiv(fast * FX_SCALE, dp);
    let b = if a < slow {
        slow
    } else {
        a
    };
    if b > fast {
        fast
    } else {
        b
    }
}

/// The full state of the cycle engine after some number of samples.
pub ghost struct CycleM {
    /// Smoothed-price history.
    pub smooth: Seq<int>,
    /// Detrender history.
    pub det: Seq<int>,
    /// In-phase history.
    pub i1: Seq<int>,
    /// Quadrature history.
    pub q1: Seq<int>,
    /// Smoothed second-stage in-phase component.
    pub i2: int,
    /// Smoothed second-stage quadrature component.
    pub q2: int,
    /// Smoothed real part.
    pub re: int,
    /// Smoothed imaginary part.
    pub im: int,
    /// Smoothed dominant-cycle period (feedback value).
    pub period: int,
    /// The newest clamped instantaneous period.
    pub clamped: int,
    /// Display period for the instantaneous trendline.
    pub disp: int,
    /// The newest phase angle.
    pub phase: int,
    /// The newest delta-phase.
    pub dp: int,
}

/// The engine state before any sample.
pub open spec fn cycle_init() -> CycleM {
    CycleM {
        smooth: Seq::empty(),
        det: Seq::empty(),
        i1: Seq::empty(),
        q1: Seq::empty(),
        i2: 0,
        q2: 0,
        re: 0,
        im: 0,
        period: 0,
        clamped: PERIOD_MIN as int,
        disp: 0,
        phase: 0,
        dp: FX_SCALE as int,
    }
}

/// One step of the engine on price `x`, with `x1`, `x2`, `x3` the
/// three previous raw prices (the newest price stands in for missing
/// history).
#[verifier::opaque]
pub open spec fn cycle_next(m: CycleM, x: int, x1: int, x2: int, x3: int) -> CycleM {
    let i = m.smooth.len() as int;
    let sm = s_wma4(x, x1, x2, x3);
    let smooth2 = m.smooth.push(sm);
    let mult = s_mult(m.period);
    let det_v = s_scale(
        s_hilraw(
            hread(smooth2, i, 0),
            hread(smooth2, i, 2),
            hread(smooth2, i, 4),
            hread(smooth2, i, 6),
        ),
        mult,
    );
    let det2 = m.det.push(det_v);
    let i1_v = hread(det2, i, 3);
    let i12 = m.i1.push(i1_v);
    let q1_v = s_scale(
        s_hilraw(hread(det2, i, 0), hread(det2, i, 2), hread(det2, i, 4), hread(det2, i, 6)),
        mult,
    );
    let q12 = m.q1.push(q1_v);
    let ji = s_scale(
        s_hilraw(hread(i12, i, 0), hread(i12, i, 2), hread(i12, i, 4), hread(i12, i, 6)),
        mult,
    );
    let jq = s_scale(
        s_hilraw(hread(q12, i, 0), hread(q12, i, 2), hread(q12, i, 4), hread(q12, i, 6)),
        mult,
    );
    let i2s = s_blend15(i1_v - jq, m.i2);
    let q2s = s_blend15(q1_v + ji, m.q2);
    let re_r = s_tdiv(i2s * m.i2 + q2s * m.q2, FX_SCALE as int);
    let im_r = s_tdiv(i2s * m.q2 - q2s * m.i2, FX_SCALE as int);
    let re_s = s_blend15(re_r, m.re);
    let im_s = s_blend15(im_r, m.im);
    let raw_p = if re_s != 0 && im_s != 0 {
        let t = s_atan(s_fxdiv(im_s, re_s));
        if t != 0 {
            s_fxdiv(TWO_PI_FX as int, t)
        } else {
            0
        }
    } else {
        0
    };
    let up = s_tdiv(3 * m.period, 2);
    let lo = s_tdiv(67 * m.period, 100);
    let p1 = if raw_p > up {
        up
    } else {
        raw_p
    };
    let p2 = if p1 < lo {
        lo
    } else {
        p1
    };
    let p3 = if p2 < PERIOD_MIN {
        PERIOD_MIN as int
    } else if p2 > PERIOD_MAX {
        PERIOD_MAX as int
    } else {
        p2
    };
    let per = s_blend15(p3, m.period);
    let disp2 = s_blend33(per, m.disp);
    let ph = if i1_v != 0 {
        s_tdiv(C_DEG * s_atan(s_fxdiv(q1_v, i1_v)), FX_SCALE as int)
    } else {
        0
    };
    let dpv = if m.phase - ph > FX_SCALE {
        m.phase - ph
    } else {
        FX_SCALE as int
    };
    CycleM {
        smooth: smooth2,
        det: det2,
        i1: i12,
        q1: q12,
        i2: i2s,
        q2: q2s,
        re: re_s,
        im: im_s,
        period: per,
        clamped: p3,
        disp: disp2,
        phase: ph,
        dp: dpv,
    }
}

/// Read `off` steps back in the raw price sequence, newest price
/// standing in for missing history.
pub open spec fn price_back(xs: Seq<int>, i: int, off: int) -> int {
    hread(xs, i, off)
}

/// The engine state after the first `n` samples of `xs`.
pub open spec fn cycle_run(xs: Seq<int>, n: nat) -> CycleM
    decreases n,
{
    if n == 0 {
        cycle_init()
    } else {
        let i = (n - 1) as int;
        cycle_next(
            cycle_run(xs, (n - 1) as nat),
            xs[i],
            price_back(xs, i, 1),
            price_back(xs, i, 2),
            price_back(xs, i, 3),
        )
    }
}

/// The period, phase and delta-phase invariants of the engine state.
/// They hold of `cycle_run` on every price sequence, because the
/// clamps that establish them are unconditional.
pub open spec fn wf_periods(m: CycleM) -> bool {
    &&& 0 <= m.period <= PERIOD_MAX
    &&& PERIOD_MIN <= m.clamped <= PERIOD_MAX
    &&& 0 <= m.disp <= PERIOD_MAX
    &&& s_abs(m.phase) <= B_PH
    &&& FX_SCALE <= m.dp <= DP_B
    &&& m.smooth.len() == m.det.len()
    &&& m.smooth.len() == m.i1.len()
    &&& m.smooth.len() == m.q1.len()
}

/// The arctangent value is bounded by `ATAN_B` for every argument.
pub proof fn lemma_atan_bound(x: int)
    ensures
        s_abs(s_atan(x)) <= ATAN_B,
{
    lemma_atan_raw_bound_small(x);
    if s_abs(x) > FX_SCALE {
        let r = s_fxdiv(FX_SCALE as int, x);
        assert(s_abs(r) <= FX_SCALE) by {
            if x >= 0 {
                lemma_tdiv_le(FX_SCALE as int * FX_SCALE, x, FX_SCALE as int);
                assert(FX_SCALE as int * FX_SCALE <= x * FX_SCALE) by (nonlinear_arith)
                    requires
                        x >= FX_SCALE,
                ;
            } else {
                lemma_tdiv_le(FX_SCALE as int * FX_SCALE, -x, FX_SCALE as int);
                assert(FX_SCALE as int * FX_SCALE <= (-x) * FX_SCALE) by (nonlinear_arith)
                    requires
                        -x >= FX_SCALE,
                ;
            }
        }
        lemma_atan_raw_bound_small(r);
    }
}

/// For arguments within one, the arctangent core stays within
/// `2 * FX_SCALE`; in general its magnitude is at most twice its
/// argument's.
proof fn lemma_atan_raw_bound_small(x: int)
    ensures
        s_abs(x) <= FX_SCALE ==> s_abs(s_atan_raw(x)) <= 2 * FX_SCALE,
{
    if s_abs(x) <= FX_SCALE {
        let t = s_tdiv(C_N2 * s_abs(x), FX_SCALE as int);
        assert(0 <= t <= C_N2) by {
            lemma_tdiv_mag(C_N2 * s_abs(x), FX_SCALE as int);
            lemma_tdiv_le(C_N2 * s_abs(x), FX_SCALE as int, C_N2 as int);
            assert(s_abs(C_N2 * s_abs(x)) <= FX_SCALE as int * C_N2) by (nonlinear_arith)
                requires
                    0 <= s_abs(x) <= FX_SCALE,
            ;
        }
        let coeff = C_PI4 + C_N2 - t;
        assert(0 <= coeff <= 2 * FX_SCALE);
        assert(s_abs(coeff * x) <= (2 * FX_SCALE) * FX_SCALE) by {
            lemma_mul_abs(coeff, x, 2 * FX_SCALE as int, FX_SCALE as int);
        }
        assert((2 * FX_SCALE as int) * FX_SCALE == FX_SCALE as int * (2 * FX_SCALE)) by (nonlinear_arith);
        lemma_tdiv_le(coeff * x, FX_SCALE as int, 2 * FX_SCALE as int);
    }
}

/// `wf_periods` holds of the initial state and is preserved by every
/// step, whatever the prices.
pub proof fn lemma_wf_periods_next(m: CycleM, x: int, x1: int, x2: int, x3: int)
    requires
        wf_periods(m),
    ensures
        wf_periods(cycle_next(m, x, x1, x2, x3)),
{
    reveal(cycle_next);
    let m2 = cycle_next(m, x, x1, x2, x3);
    let up = s_tdiv(3 * m.period, 2);
    let lo = s_tdiv(67 * m.period, 100);
    assert(0 <= up) by {
        lemma_tdiv_mag(3 * m.period, 2);
    }
    assert(0 <= lo <= m.period) by {
        lemma_tdiv_mag(67 * m.period, 100);
        lemma_tdiv_le(67 * m.period, 100, m.period);
        assert(s_abs(67 * m.period) <= 100 * m.period) by (nonlinear_arith)
            requires
                m.period >= 0,
        ;
    }
    assert(0 <= m2.period <= PERIOD_MAX) by {
        lemma_tdiv_range(
            m2.clamped + 4 * m.period,
            5,
            0,
            PERIOD_MAX as int,
        );
    }
    assert(0 <= m2.disp <= PERIOD_MAX) by {
        lemma_tdiv_range(33 * m2.period + 67 * m.disp, 100, 0, PERIOD_MAX as int);
    }
    let i = m.smooth.len() as int;
    let det2 = m2.det;
    let i1_v = hread(det2, i, 3);
    let q1_v = m2.q1[i];
    if i1_v != 0 {
        let t = s_atan(s_fxdiv(q1_v, i1_v));
        lemma_atan_bound(s_fxdiv(q1_v, i1_v));
        assert(s_abs(C_DEG * t) <= FX_SCALE as int * B_PH) by {
            lemma_mul_abs(C_DEG as int, t, C_DEG as int, ATAN_B as int);
            assert(C_DEG as int * ATAN_B <= FX_SCALE as int * B_PH) by (nonlinear_arith);
        }
        lemma_tdiv_le(C_DEG * t, FX_SCALE as int, B_PH as int);
    }
}

/// The Hilbert combination followed by the multiplier loses at most
/// a factor of ten: inputs within `x` give an output within `10 * x`.
pub proof fn lemma_hil_gain(a: int, b: int, c: int, d: int, m: int, x: int)
    requires
        s_abs(a) <= x,
        s_abs(b) <= x,
        s_abs(c) <= x,
        s_abs(d) <= x,
        0 <= m <= 5 * FX_SCALE,
    ensures
        s_abs(s_scale(s_hilraw(a, b, c, d), m)) <= 10 * x,
{
    let num = C_HIL_A * a + C_HIL_B * b - C_HIL_B * c - C_HIL_A * d;
    assert(s_abs(num) <= FX_SCALE as int * (2 * x)) by {
        lemma_mul_abs(C_HIL_A as int, a, C_HIL_A as int, x);
        lemma_mul_abs(C_HIL_B as int, b, C_HIL_B as int, x);
        lemma_mul_abs(C_HIL_B as int, c, C_HIL_B as int, x);
        lemma_mul_abs(C_HIL_A as int, d, C_HIL_A as int, x);
        assert(2 * (C_HIL_A as int + C_HIL_B) * x <= FX_SCALE as int * (2 * x))
            by (nonlinear_arith)
            requires
                x >= 0,
        ;
    }
    lemma_tdiv_le(num, FX_SCALE as int, 2 * x);
    let h = s_hilraw(a, b, c, d);
    assert(s_abs(h * m) <= FX_SCALE as int * (10 * x)) by {
        lemma_mul_abs(h, m, 2 * x, 5 * FX_SCALE as int);
        assert((2 * x) * (5 * FX_SCALE as int) == FX_SCALE as int * (10 * x)) by (nonlinear_arith);
    }
    lemma_tdiv_le(h * m, FX_SCALE as int, 10 * x);
}

/// A blend of two values within `x` stays within `x`.
pub proof fn lemma_blend15_bound(a: int, b: int, x: int)
    requires
        s_abs(a) <= x,
        s_abs(b) <= x,
    ensures
        s_abs(s_blend15(a, b)) <= x,
{
    lemma_tdiv_le(a + 4 * b, 5, x);
}

/// A fixed-point quotient by a nonzero integer is bounded by the
/// scaled numerator.
pub proof fn lemma_fxdiv_mag(a: int, b: int)
    requires
        b != 0,
    ensures
        s_abs(s_fxdiv(a, b)) <= s_abs(a * FX_SCALE),
{
    if b >= 0 {
        lemma_tdiv_mag(a * FX_SCALE, b);
    } else {
        lemma_tdiv_mag(a * FX_SCALE, -b);
    }
}

/// After `n` samples the engine has histories of length `n`.
pub proof fn lemma_cycle_run_len(xs: Seq<int>, n: nat)
    ensures
        cycle_run(xs, n).smooth.len() == n,
    decreases n,
{
    reveal(cycle_next);
    if n > 0 {
        lemma_cycle_run_len(xs, (n - 1) as nat);
    }
}

/// Period bounds: at every sample, on every price sequence, the
/// clamped instantaneous dominant-cycle period lies between six and
/// fifty samples, and the smoothed feedback period never leaves
/// `[0, 50]`.
pub proof fn lemma_period_bounds(xs: Seq<int>, n: nat)
    ensures
        PERIOD_MIN <= cycle_run(xs, n).clamped <= PERIOD_MAX,
        0 <= cycle_run(xs, n).period <= PERIOD_MAX,
{
    lemma_cycle_run_wf(xs, n);
}

/// `wf_periods` holds after any number of samples of any sequence.
pub proof fn lemma_cycle_run_wf(xs: Seq<int>, n: nat)
    ensures
        wf_periods(cycle_run(xs, n)),
    decreases n,
{
    if n == 0 {
    } else {
        lemma_cycle_run_wf(xs, (n - 1) as nat);
        let i = (n - 1) as int;
        lemma_wf_periods_next(
            cycle_run(xs, (n - 1) as nat),
            xs[i],
            price_back(xs, i, 1),
            price_back(xs, i, 2),
            price_back(xs, i, 3),
        );
    }
}

/// The four-tap weighted smoother on machine integers.
pub(crate) fn wma4(a: i128, b: i128, c: i128, d: i128) -> (r: i128)
    requires
        s_abs(a as int) <= FX_ABS_MAX,
        s_abs(b as int) <= FX_ABS_MAX,
        s_abs(c as int) <= FX_ABS_MAX,
        s_abs(d as int) <= FX_ABS_MAX,
    ensures
        r as int == s_wma4(a as int, b as int, c as int, d as int),
        s_abs(r as int) <= FX_ABS_MAX,
{
    proof {
        lemma_tdiv_le(4 * a + 3 * b + 2 * c + d, 10, FX_ABS_MAX as int);
    }
    tdiv(4 * a + 3 * b + 2 * c + d, 10)
}

/// The Hilbert combination scaled by the period multiplier.
fn hil_mult(a: i128, b: i128, c: i128, d: i128, m: i128) -> (r: i128)
    requires
        s_abs(a as int) <= B_Q1,
        s_abs(b as int) <= B_Q1,
        s_abs(c as int) <= B_Q1,
        s_abs(d as int) <= B_Q1,
        0 <= m <= 5 * FX_SCALE,
    ensures
        r as int == s_scale(s_hilraw(a as int, b as int, c as int, d as int), m as int),
{
    proof {
        lemma_mul_abs(C_HIL_A as int, a as int, C_HIL_A as int, B_Q1 as int);
        lemma_mul_abs(C_HIL_B as int, b as int, C_HIL_B as int, B_Q1 as int);
        lemma_mul_abs(C_HIL_B as int, c as int, C_HIL_B as int, B_Q1 as int);
        lemma_mul_abs(C_HIL_A as int, d as int, C_HIL_A as int, B_Q1 as int);
    }
    let num: i128 = C_HIL_A * a + C_HIL_B * b - C_HIL_B * c - C_HIL_A * d;
    let h: i128 = tdiv(num, FX_SCALE);
    proof {
        lemma_hil_gain(a as int, b as int, c as int, d as int, m as int, B_Q1 as int);
        lemma_tdiv_le(num as int, FX_SCALE as int, 2 * B_Q1 as int);
        lemma_mul_abs(h as int, m as int, 2 * B_Q1 as int, 5 * FX_SCALE as int);
    }
    tdiv(h * m, FX_SCALE)
}

/// The 0.2 / 0.8 blend on machine integers.
fn blend15(a: i128, b: i128) -> (r: i128)
    requires
        s_abs(a as int) <= B_RE,
        s_abs(b as int) <= B_RE,
    ensures
        r as int == s_blend15(a as int, b as int),
        s_abs(r as int) <= B_RE,
{
    proof {
        lemma_blend15_bound(a as int, b as int, B_RE as int);
    }
    tdiv(a + 4 * b, 5)
}

/// Fixed-point division on machine integers.
fn fxdiv(a: i128, b: i128) -> (r: i128)
    requires
        b != 0,
        i128::MIN < b,
        s_abs(a as int) <= B_RE,
    ensures
        r as int == s_fxdiv(a as int, b as int),
        s_abs(r as int) <= s_abs(a as int * FX_SCALE),
{
    proof {
        lemma_mul_abs(a as int, FX_SCALE as int, B_RE as int, FX_SCALE as int);
        lemma_fxdiv_mag(a as int, b as int);
    }
    if b > 0 {
        tdiv(a * FX_SCALE, b)
    } else {
        -tdiv(a * FX_SCALE, -b)
    }
}

/// The polynomial arctangent core on machine integers.
pub fn atan_raw(x: i128) -> (r: i128)
    requires
        s_abs(x as int) <= FX_SCALE,
    ensures
        r as int == s_atan_raw(x as int),
        s_abs(r as int) <= 2 * FX_SCALE,
{
    let xa: i128 = if x < 0 {
        -x
    } else {
        x
    };
    proof {
        lemma_mul_abs(C_N2 as int, xa as int, C_N2 as int, FX_SCALE as int);
        lemma_tdiv_mag(C_N2 * xa as int, FX_SCALE as int);
        assert(s_abs(C_N2 * xa as int) <= FX_SCALE as int * C_N2) by (nonlinear_arith)
            requires
                0 <= xa as int <= FX_SCALE,
        ;
        lemma_tdiv_le(C_N2 * xa as int, FX_SCALE as int, C_N2 as int);
    }
    let t: i128 = tdiv(C_N2 * xa, FX_SCALE);
    proof {
        lemma_mul_abs((C_PI4 + C_N2 - t) as int, x as int, 2 * FX_SCALE as int, FX_SCALE as int);
    }
    let r: i128 = tdiv((C_PI4 + C_N2 - t) * x, FX_SCALE);
    proof {
        lemma_atan_raw_bound_small(x as int);
    }
    r
}

/// The fast arctangent on machine integers.
pub fn atan(x: i128) -> (r: i128)
    requires
        i128::MIN < x,
        s_abs(x as int) <= B_RE * FX_SCALE,
    ensures
        r as int == s_atan(x as int),
        s_abs(r as int) <= ATAN_B,
{
    proof {
        lemma_atan_bound(x as int);
    }
    let xa: i128 = if x < 0 {
        -x
    } else {
        x
    };
    if xa > FX_SCALE {
        let recip: i128 = if x > 0 {
            tdiv(FX_SCALE * FX_SCALE, x)
        } else {
            -tdiv(FX_SCALE * FX_SCALE, -x)
        };
        proof {
            if x > 0 {
                lemma_tdiv_le(FX_SCALE as int * FX_SCALE, x as int, FX_SCALE as int);
                assert(FX_SCALE as int * FX_SCALE <= x as int * FX_SCALE) by (nonlinear_arith)
                    requires
                        x as int >= FX_SCALE,
                ;
            } else {
                lemma_tdiv_le(FX_SCALE as int * FX_SCALE, -(x as int), FX_SCALE as int);
                assert(FX_SCALE as int * FX_SCALE <= -(x as int) * FX_SCALE) by (nonlinear_arith)
                    requires
                        -(x as int) >= FX_SCALE,
                ;
            }
        }
        let core: i128 = atan_raw(recip);
        if x > 0 {
            C_PI2 - core
        } else {
            -C_PI2 - core
        }
    } else {
        atan_raw(x)
    }
}

/// The adaptive smoothing coefficient on machine integers.
pub(crate) fn alpha_step(fast: i128, slow: i128, dp: i128) -> (r: i128)
    requires
        0 < fast <= FX_SCALE,
        0 < slow <= FX_SCALE,
        FX_SCALE <= dp <= DP_B,
    ensures
        r as int == s_alpha(fast as int, slow as int, dp as int),
        0 < r <= FX_SCALE,
{
    proof {
        lemma_mul_abs(fast as int, FX_SCALE as int, FX_SCALE as int, FX_SCALE as int);
        lemma_tdiv_mag(fast as int * FX_SCALE, dp as int);
    }
    let a: i128 = tdiv(fast * FX_SCALE, dp);
    let b: i128 = if a < slow {
        slow
    } else {
        a
    };
    if b > fast {
        fast
    } else {
        b
    }
}

/// The executable cycle engine state: four seven-slot history
/// buffers and the loop-carried scalars.
pub struct CycleState {
    smooth: Ring7,
    det: Ring7,
    i1: Ring7,
    q1: Ring7,
    i2: i128,
    q2: i128,
    re: i128,
    im: i128,
    period: i128,
    clamped: i128,
    disp: i128,
    phase: i128,
    dp: i128,
}

impl View for CycleState {
    type V = CycleM;

    closed spec fn view(&self) -> CycleM {
        CycleM {
            smooth: self.smooth@,
            det: self.det@,
            i1: self.i1@,
            q1: self.q1@,
            i2: self.i2 as int,
            q2: self.q2 as int,
            re: self.re as int,
            im: self.im as int,
            period: self.period as int,
            clamped: self.clamped as int,
            disp: self.disp as int,
            phase: self.phase as int,
            dp: self.dp as int,
        }
    }
}

impl CycleState {
    /// Buffers well formed, histories aligned, and every carried
    /// quantity inside the bound that keeps the next step's
    /// arithmetic exact.
    pub closed spec fn wf(&self) -> bool {
        &&& self.smooth.wf()
        &&& self.det.wf()
        &&& self.i1.wf()
        &&& self.q1.wf()
        &&& wf_periods(self@)
        &&& forall|j: int|
            0 <= j < self.smooth@.len() ==> s_abs(self.smooth@[j]) <= FX_ABS_MAX
        &&& forall|j: int| 0 <= j < self.det@.len() ==> s_abs(self.det@[j]) <= B_DET
        &&& forall|j: int| 0 <= j < self.i1@.len() ==> s_abs(self.i1@[j]) <= B_DET
        &&& forall|j: int| 0 <= j < self.q1@.len() ==> s_abs(self.q1@[j]) <= B_Q1
        &&& s_abs(self.i2 as int) <= B_2
        &&& s_abs(self.q2 as int) <= B_2
        &&& s_abs(self.re as int) <= B_RE
        &&& s_abs(self.im as int) <= B_RE
    }

    /// The engine before any sample.
    pub fn new() -> (r: CycleState)
        ensures
            r.wf(),
            r@ == cycle_init(),
    {
        CycleState {
            smooth: Ring7::new(),
            det: Ring7::new(),
            i1: Ring7::new(),
            q1: Ring7::new(),
            i2: 0,
            q2: 0,
            re: 0,
            im: 0,
            period: 0,
            clamped: PERIOD_MIN,
            disp: 0,
            phase: 0,
            dp: FX_SCALE,
        }
    }

    /// The newest delta-phase.
    pub(crate) fn dp_val(&self) -> (r: i128)
        requires
            self.wf(),
        ensures
            r as int == self@.dp,
            FX_SCALE <= r <= DP_B,
    {
        self.dp
    }

    /// The newest display period.
    pub(crate) fn disp_val(&self) -> (r: i128)
        requires
            self.wf(),
        ensures
            r as int == self@.disp,
            0 <= r <= PERIOD_MAX,
    {
        self.disp
    }

    /// Feed one price sample through every stage of the engine.
    #[verifier::rlimit(100)]
    pub fn step(&mut self, x: i128, x1: i128, x2: i128, x3: i128)
        requires
            old(self).wf(),
            s_abs(x as int) <= FX_ABS_MAX,
            s_abs(x1 as int) <= FX_ABS_MAX,
            s_abs(x2 as int) <= FX_ABS_MAX,
            s_abs(x3 as int) <= FX_ABS_MAX,
            old(self)@.smooth.len() < usize::MAX,
        ensures
            final(self).wf(),
            final(self)@ == cycle_next(old(self)@, x as int, x1 as int, x2 as int, x3 as int),
    {
        proof {
            reveal(cycle_next);
        }
        let ghost m0 = self@;

        let sm = wma4(x, x1, x2, x3);
        self.smooth.push(sm);
        let s0 = self.smooth.read(0);
        let s2 = self.smooth.read(2);
        let s4 = self.smooth.read(4);
        let s6 = self.smooth.read(6);

        proof {
            lemma_tdiv_le(3 * m0.period, 40, 1006632960);
            lemma_tdiv_mag(3 * m0.period, 40);
        }
        let mult = tdiv(3 * self.period, 40) + C_054;

        let det_v = hil_mult(s0, s2, s4, s6, mult);
        proof {
            lemma_hil_gain(s0 as int, s2 as int, s4 as int, s6 as int, mult as int,
                FX_ABS_MAX as int);
        }
        self.det.push(det_v);
        let i1_v = self.det.read(3);
        self.i1.push(i1_v);

        let d0 = self.det.read(0);
        let d2 = self.det.read(2);
        let d4 = self.det.read(4);
        let d6 = self.det.read(6);
        let q1_v = hil_mult(d0, d2, d4, d6, mult);
        proof {
            lemma_hil_gain(d0 as int, d2 as int, d4 as int, d6 as int, mult as int, B_DET as int);
        }
        self.q1.push(q1_v);

        let a0 = self.i1.read(0);
        let a2 = self.i1.read(2);
        let a4 = self.i1.read(4);
        let a6 = self.i1.read(6);
        let ji = hil_mult(a0, a2, a4, a6, mult);
        proof {
            lemma_hil_gain(a0 as int, a2 as int, a4 as int, a6 as int, mult as int, B_DET as int);
        }

        let b0 = self.q1.read(0);
        let b2 = self.q1.read(2);
        let b4 = self.q1.read(4);
        let b6 = self.q1.read(6);
        let jq = hil_mult(b0, b2, b4, b6, mult);
        proof {
            lemma_hil_gain(b0 as int, b2 as int, b4 as int, b6 as int, mult as int, B_Q1 as int);
        }

        let i2s = blend15(i1_v - jq, self.i2);
        let q2s = blend15(q1_v + ji, self.q2);

        proof {
            lemma_blend15_bound(i1_v as int - jq as int, m0.i2, B_2 as int);
            lemma_blend15_bound(q1_v as int + ji as int, m0.q2, B_2 as int);
            lemma_mul_abs(i2s as int, m0.q2, B_2 as int, B_2 as int);
            lemma_mul_abs(q2s as int, m0.i2, B_2 as int, B_2 as int);
            lemma_mul_abs(i2s as int, m0.i2, B_2 as int, B_2 as int);
            lemma_mul_abs(q2s as int, m0.q2, B_2 as int, B_2 as int);
        }
        let re_num = i2s * self.i2 + q2s * self.q2;
        let im_num = i2s * self.q2 - q2s * self.i2;
        proof {
            lemma_tdiv_le(re_num as int, FX_SCALE as int, B_RE as int);
            lemma_tdiv_le(im_num as int, FX_SCALE as int, B_RE as int);
        }
        let re_r = tdiv(re_num, FX_SCALE);
        let im_r = tdiv(im_num, FX_SCALE);
        let re_s = blend15(re_r, self.re);
        let im_s = blend15(im_r, self.im);
        self.i2 = i2s;
        self.q2 = q2s;
        self.re = re_s;
        self.im = im_s;

        let raw_p: i128 = if re_s != 0 && im_s != 0 {
            let ratio = fxdiv(im_s, re_s);
            let t = atan(ratio);
            if t != 0 {
                proof {
                    lemma_fxdiv_mag(TWO_PI_FX as int, t as int);
                }
                fxdiv(TWO_PI_FX, t)
            } else {
                0
            }
        } else {
            0
        };

        proof {
            lemma_tdiv_mag(3 * m0.period, 2);
            lemma_tdiv_le(3 * m0.period, 2, 3 * PERIOD_MAX as int);
            lemma_tdiv_mag(67 * m0.period, 100);
            lemma_tdiv_le(67 * m0.period, 100, m0.period);
            assert(s_abs(67 * m0.period) <= 100 * m0.period) by (nonlinear_arith)
                requires
                    m0.period >= 0,
            ;
        }
        let up = tdiv(3 * self.period, 2);
        let lo = tdiv(67 * self.period, 100);
        let p1 = if raw_p > up {
            up
        } else {
            raw_p
        };
        let p2 = if p1 < lo {
            lo
        } else {
            p1
        };
        let p3 = if p2 < PERIOD_MIN {
            PERIOD_MIN
        } else if p2 > PERIOD_MAX {
            PERIOD_MAX
        } else {
            p2
        };
        proof {
            lemma_tdiv_range(p3 as int + 4 * m0.period, 5, 0, PERIOD_MAX as int);
        }
        let per = tdiv(p3 + 4 * self.period, 5);
        proof {
            lemma_tdiv_range(33 * per as int + 67 * m0.disp, 100, 0, PERIOD_MAX as int);
        }
        let dsp = tdiv(33 * per + 67 * self.disp, 100);
        self.period = per;
        self.clamped = p3;
        self.disp = dsp;

        let ph: i128 = if i1_v != 0 {
            let pr = fxdiv(q1_v, i1_v);
            let t2 = atan(pr);
            proof {
                lemma_mul_abs(C_DEG as int, t2 as int, C_DEG as int, ATAN_B as int);
                assert(C_DEG as int * ATAN_B == FX_SCALE as int * B_PH) by (nonlinear_arith);
                lemma_tdiv_le(C_DEG * t2 as int, FX_SCALE as int, B_PH as int);
            }
            tdiv(C_DEG * t2, FX_SCALE)
        } else {
            0
        };
        let dpc = self.phase - ph;
        let dpv = if dpc > FX_SCALE {
            dpc
        } else {
            FX_SCALE
        };
        self.phase = ph;
        self.dp = dpv;
    }
}

} // verus!
