//! The instantaneous trendline.
//!
//! The trendline reuses the cycle engine's display period to size a
//! rolling average of the raw prices: at each sample the rounded,
//! clamped period picks how many of the most recent prices to
//! average, and one more four-tap pass smooths the result. During
//! the warm-up window the raw price is passed through unchanged.

use vstd::prelude::*;
use crate::cycle::{
    cycle_run, lemma_cycle_run_len, lemma_cycle_run_wf, price_back, s_wma4, wma4, CycleState,
};
use crate::fixed::{
    lemma_tdiv_exact, lemma_tdiv_le, s_abs, s_tdiv, tdiv, Fx, FX_ABS_MAX, FX_SCALE,
};
use crate::moving_averages::mama::fx_vals;

verus! {

/// One half, used to round the display period to a whole number of
/// samples.
pub const FX_HALF: i128 = 134217728;

/// Configuration of the instantaneous trendline.
#[derive(Debug, Clone, PartialEq)]
pub struct EhlersITrendParams {
    /// Samples during which the raw price is passed through
    /// unchanged; defaults to 12.
    pub warmup_bars: Option<usize>,
    /// Ceiling on the dominant-cycle period used to size the rolling
    /// average; defaults to 50.
    pub max_dc_period: Option<usize>,
}

impl Default for EhlersITrendParams {
    /// The customary configuration: 12 warm-up bars, period ceiling 50.
    fn default() -> (r: Self)
        ensures
            r.warmup_bars == Some(12usize),
            r.max_dc_period == Some(50usize),
    {
        EhlersITrendParams { warmup_bars: Some(12), max_dc_period: Some(50) }
    }
}

impl EhlersITrendParams {
    /// The default configuration under its customary name.
    pub fn with_default_params() -> (r: Self)
        ensures
            r.warmup_bars == Some(12usize),
            r.max_dc_period == Some(50usize),
    {
        Self::default()
    }
}

/// The warm-up length a configuration denotes.
pub open spec fn warmup_of(p: EhlersITrendParams) -> int {
    if p.warmup_bars is Some {
        p.warmup_bars->0 as int
    } else {
        12
    }
}

/// The period ceiling a configuration denotes, held at one or more.
pub open spec fn max_dc_of(p: EhlersITrendParams) -> int {
    let m = if p.max_dc_period is Some {
        p.max_dc_period->0 as int
    } else {
        50
    };
    if m < 1 {
        1
    } else {
        m
    }
}

/// The input of the trendline: a price sequence and its
/// configuration.
#[derive(Debug, Clone)]
pub struct EhlersITrendInput<'a> {
    /// The price series.
    pub data: &'a Vec<Fx>,
    /// The configuration.
    pub params: EhlersITrendParams,
}

impl<'a> EhlersITrendInput<'a> {
    /// Wrap a price sequence with a configuration.
    pub fn from_slice(data: &'a Vec<Fx>, params: EhlersITrendParams) -> (r: Self)
        ensures
            r.data == data,
            r.params == params,
    {
        EhlersITrendInput { data, params }
    }

    /// The warm-up length in effect.
    pub fn get_warmup_bars(&self) -> (r: usize)
        ensures
            r as int == warmup_of(self.params),
    {
        match self.params.warmup_bars {
            Some(w) => w,
            None => 12,
        }
    }

    /// The period ceiling in effect, held at one or more.
    pub fn get_max_dc_period(&self) -> (r: usize)
        ensures
            r as int == max_dc_of(self.params),
    {
        let m = match self.params.max_dc_period {
            Some(m) => m,
            None => 50,
        };
        if m < 1 {
            1
        } else {
            m
        }
    }
}

/// The trendline output, index-aligned with the input.
#[derive(Debug, Clone)]
pub struct EhlersITrendOutput {
    /// The smoothed instantaneous trend values.
    pub values: Vec<Fx>,
}

/// The failures of the trendline. Fixed-point prices cannot carry a
/// NaN, so `AllValuesNaN` is raised only by unverified adapters that
/// admit floating-point input; this function never returns it.
#[derive(Debug, Clone, Copy, PartialEq, Eq)]
pub enum EhlersITrendError {
    /// The input was empty.
    EmptyInputData,
    /// Every value of a floating-point input failed to convert.
    AllValuesNaN,
    /// The warm-up window spans the whole input.
    NotEnoughDataForWarmup {
        /// The configured warm-up length.
        warmup_bars: usize,
        /// The input length.
        length: usize,
    },
}

/// The whole-sample dominant-cycle period at display value `disp`:
/// rounded to nearest, held at one or more and capped at `max_dc`.
pub open spec fn s_dcp(disp: int, max_dc: int) -> int {
    let d = s_tdiv(disp + FX_HALF, FX_SCALE as int);
    let d1 = if d < 1 {
        1
    } else {
        d
    };
    if d1 > max_dc {
        max_dc
    } else {
        d1
    }
}

/// The sum of the `k` most recent prices at sample `i`, the newest
/// price standing in for missing history.
pub open spec fn s_sum_back(xs: Seq<int>, i: int, k: int) -> int
    decreases k,
{
    if k <= 0 {
        0
    } else {
        price_back(xs, i, k - 1) + s_sum_back(xs, i, k - 1)
    }
}

/// The raw instantaneous trend at sample `i`: the mean of the
/// `s_dcp` most recent prices.
pub open spec fn s_it_at(xs: Seq<int>, max_dc: int, i: nat) -> int {
    let dcp = s_dcp(cycle_run(xs, (i + 1) as nat).disp, max_dc);
    s_tdiv(s_sum_back(xs, i as int, dcp), dcp)
}

/// The raw trend `off` samples back, the newest value standing in
/// for missing history.
pub open spec fn it_back(xs: Seq<int>, max_dc: int, i: nat, off: nat) -> int {
    if off > i {
        s_it_at(xs, max_dc, i)
    } else {
        s_it_at(xs, max_dc, (i - off) as nat)
    }
}

/// The trendline output at sample `i`: the raw price during warm-up,
/// then the four-tap smoothing of the raw trend.
pub open spec fn s_itrend_at(xs: Seq<int>, max_dc: int, warmup: int, i: nat) -> int {
    if i < warmup {
        xs[i as int]
    } else {
        s_wma4(
            s_it_at(xs, max_dc, i),
            it_back(xs, max_dc, i, 1),
            it_back(xs, max_dc, i, 2),
            it_back(xs, max_dc, i, 3),
        )
    }
}

/// What [`ehlers_itrend`] promises of its result.
pub open spec fn itrend_contract(
    data: Seq<Fx>,
    params: EhlersITrendParams,
    res: Result<EhlersITrendOutput, EhlersITrendError>,
) -> bool {
    let xs = fx_vals(data);
    let w = warmup_of(params);
    let mdc = max_dc_of(params);
    match res {
        Ok(out) => {
            &&& data.len() > 0
            &&& w < data.len()
            &&& out.values@.len() == data.len()
            &&& forall|j: int|
                0 <= j < data.len() ==> out.values@[j]@ == s_itrend_at(xs, mdc, w, j as nat)
        },
        Err(e) => match e {
            EhlersITrendError::EmptyInputData => data.len() == 0,
            EhlersITrendError::AllValuesNaN => false,
            EhlersITrendError::NotEnoughDataForWarmup { warmup_bars, length } => {
                &&& data.len() > 0
                &&& w >= data.len()
                &&& warmup_bars as int == w
                &&& length == data.len()
            },
        },
    }
}

/// Compute the instantaneous trendline over a price sequence.
///
/// On success the output is index-aligned with the input and every
/// value equals the recurrence `s_itrend_at`; an empty input and a
/// warm-up window spanning the whole input are rejected up front.
/// One trendline sample: feed price `i` through the engine, size
/// and take the rolling mean, and apply the warm-up rule. Returns
/// the output value and the raw trend value.
#[verifier::rlimit(100)]
fn itrend_sample(
    st: &mut CycleState,
    data: &Vec<Fx>,
    i: usize,
    warmup: usize,
    mdc: usize,
    it1: i128,
    it2: i128,
    it3: i128,
) -> (r: (i128, i128))
    requires
        i < data@.len(),
        old(st).wf(),
        old(st)@ == cycle_run(fx_vals(data@), i as nat),
        mdc >= 1,
        i >= 1 ==> it1 as int == s_it_at(fx_vals(data@), mdc as int, (i - 1) as nat) && s_abs(
            it1 as int,
        ) <= FX_ABS_MAX,
        i >= 2 ==> it2 as int == s_it_at(fx_vals(data@), mdc as int, (i - 2) as nat) && s_abs(
            it2 as int,
        ) <= FX_ABS_MAX,
        i >= 3 ==> it3 as int == s_it_at(fx_vals(data@), mdc as int, (i - 3) as nat) && s_abs(
            it3 as int,
        ) <= FX_ABS_MAX,
    ensures
        final(st).wf(),
        final(st)@ == cycle_run(fx_vals(data@), (i + 1) as nat),
        r.0 as int == s_itrend_at(fx_vals(data@), mdc as int, warmup as int, i as nat),
        r.1 as int == s_it_at(fx_vals(data@), mdc as int, i as nat),
        s_abs(r.0 as int) <= FX_ABS_MAX,
        s_abs(r.1 as int) <= FX_ABS_MAX,
{
    let ghost xs = fx_vals(data@);
    let ghost mdcg = mdc as int;
    let n = data.len();
    let xi = data[i];
    let xr = xi.raw();
    let x1 = if i >= 1 {
        data[i - 1].raw()
    } else {
        xr
    };
    let x2 = if i >= 2 {
        data[i - 2].raw()
    } else {
        xr
    };
    let x3 = if i >= 3 {
        data[i - 3].raw()
    } else {
        xr
    };
    proof {
        assert(xs[i as int] == data@[i as int]@);
        assert(x1 as int == price_back(xs, i as int, 1));
        assert(x2 as int == price_back(xs, i as int, 2));
        assert(x3 as int == price_back(xs, i as int, 3));
        lemma_cycle_run_len(xs, i as nat);
    }
    st.step(xr, x1, x2, x3);

    let disp = st.disp_val();
    proof {
        crate::fixed::lemma_tdiv_mag(disp as int + FX_HALF, FX_SCALE as int);
        crate::fixed::lemma_tdiv_lt(disp as int + FX_HALF, FX_SCALE as int, 51);
    }
    let d = tdiv(disp + FX_HALF, FX_SCALE);
    let d1: i128 = if d < 1 {
        1
    } else {
        d
    };
    let mdc128: i128 = mdc as i128;
    let dcp128: i128 = if d1 > mdc128 {
        mdc128
    } else {
        d1
    };
    let dcp: usize = dcp128 as usize;
    proof {
        assert(dcp128 as int == s_dcp(st@.disp, mdcg));
        assert(1 <= dcp128 <= 50);
    }

    let mut sum: i128 = 0;
    let mut k: usize = 0;
    while k < dcp
        invariant
            k <= dcp,
            dcp <= 50,
            i < n,
            n == data@.len(),
            xs == fx_vals(data@),
            xs.len() == n,
            xr as int == xs[i as int],
            s_abs(xr as int) <= FX_ABS_MAX,
            sum as int == s_sum_back(xs, i as int, k as int),
            s_abs(sum as int) <= k * FX_ABS_MAX,
        decreases dcp - k,
    {
        let p: i128 = if k > i {
            xr
        } else {
            data[i - k].raw()
        };
        proof {
            assert(p as int == price_back(xs, i as int, k as int));
        }
        sum = sum + p;
        k = k + 1;
    }

    proof {
        assert(s_abs(sum as int) <= dcp128 as int * FX_ABS_MAX) by (nonlinear_arith)
            requires
                s_abs(sum as int) <= dcp as int * FX_ABS_MAX,
                dcp as int == dcp128 as int,
        ;
        lemma_tdiv_le(sum as int, dcp128 as int, FX_ABS_MAX as int);
    }
    let itv = tdiv(sum, dcp128);
    proof {
        assert(itv as int == s_it_at(xs, mdcg, i as nat));
    }

    let outv: i128 = if i < warmup {
        xr
    } else {
        let p1 = if i >= 1 {
            it1
        } else {
            itv
        };
        let p2 = if i >= 2 {
            it2
        } else {
            itv
        };
        let p3 = if i >= 3 {
            it3
        } else {
            itv
        };
        wma4(itv, p1, p2, p3)
    };
    (outv, itv)
}

/// Compute the instantaneous trendline over a price sequence.
///
/// On success the output is index-aligned with the input and every
/// value equals the recurrence `s_itrend_at`; an empty input and a
/// warm-up window spanning the whole input are rejected up front.
pub fn ehlers_itrend(input: &EhlersITrendInput) -> (res: Result<
    EhlersITrendOutput,
    EhlersITrendError,
>)
    ensures
        itrend_contract(input.data@, input.params, res),
{
    let n = input.data.len();
    if n == 0 {
        return Err(EhlersITrendError::EmptyInputData);
    }
    let warmup = input.get_warmup_bars();
    let mdc = input.get_max_dc_period();
    if warmup >= n {
        return Err(EhlersITrendError::NotEnoughDataForWarmup { warmup_bars: warmup, length: n });
    }

    let ghost xs = fx_vals(input.data@);
    let ghost mdcg = max_dc_of(input.params);
    let mut st = CycleState::new();
    let mut out: Vec<Fx> = Vec::new();
    let mut it1: i128 = 0;
    let mut it2: i128 = 0;
    let mut it3: i128 = 0;

    let mut i: usize = 0;
    while i < n
        invariant
            n == input.data@.len(),
            1 <= n,
            i <= n,
            xs == fx_vals(input.data@),
            xs.len() == n,
            mdcg == max_dc_of(input.params),
            mdc as int == mdcg,
            1 <= mdc,
            warmup as int == warmup_of(input.params),
            st.wf(),
            st@ == cycle_run(xs, i as nat),
            out@.len() == i,
            forall|j: int|
                0 <= j < i ==> out@[j]@ == s_itrend_at(
                    xs,
                    mdcg,
                    warmup_of(input.params),
                    j as nat,
                ),
            i >= 1 ==> it1 as int == s_it_at(xs, mdcg, (i - 1) as nat) && s_abs(it1 as int)
                <= FX_ABS_MAX,
            i >= 2 ==> it2 as int == s_it_at(xs, mdcg, (i - 2) as nat) && s_abs(it2 as int)
                <= FX_ABS_MAX,
            i >= 3 ==> it3 as int == s_it_at(xs, mdcg, (i - 3) as nat) && s_abs(it3 as int)
                <= FX_ABS_MAX,
        decreases n - i,
    {
        let r = itrend_sample(&mut st, input.data, i, warmup, mdc, it1, it2, it3);
        out.push(Fx::from_raw(r.0));
        it3 = it2;
        it2 = it1;
        it1 = r.1;
        i = i + 1;
    }
    Ok(EhlersITrendOutput { values: out })
}

/// On an all-constant series the sum of the `k` most recent prices
/// is `k` times the constant.
proof fn lemma_sum_back_const(xs: Seq<int>, v: int, i: int, k: int)
    requires
        forall|j: int| 0 <= j < xs.len() ==> xs[j] == v,
        0 <= i < xs.len(),
        k >= 0,
    ensures
        s_sum_back(xs, i, k) == k * v,
    decreases k,
{
    if k == 0 {
        assert(0 * v == 0) by (nonlinear_arith);
    } else {
        lemma_sum_back_const(xs, v, i, k - 1);
        assert(price_back(xs, i, k - 1) == v);
        assert((k - 1) * v + v == k * v) by (nonlinear_arith);
    }
}

/// On an all-constant series the raw instantaneous trend equals the
/// constant at every sample.
proof fn lemma_it_const(xs: Seq<int>, max_dc: int, v: int, i: nat)
    requires
        forall|j: int| 0 <= j < xs.len() ==> xs[j] == v,
        i < xs.len(),
        max_dc >= 1,
    ensures
        s_it_at(xs, max_dc, i) == v,
{
    let disp = cycle_run(xs, (i + 1) as nat).disp;
    let dcp = s_dcp(disp, max_dc);
    lemma_cycle_run_wf(xs, (i + 1) as nat);
    lemma_sum_back_const(xs, v, i as int, dcp);
    lemma_tdiv_exact(v, dcp);
    assert(dcp * v == v * dcp) by (nonlinear_arith);
}

/// Constant-input stability of the trendline: when every price
/// equals `v`, every output from the first sample on equals `v` -
/// raw pass-through during warm-up, and an exact mean of equal
/// values afterwards.
pub proof fn lemma_itrend_constant_input(xs: Seq<int>, max_dc: int, warmup: int, v: int, i: nat)
    requires
        forall|j: int| 0 <= j < xs.len() ==> xs[j] == v,
        i < xs.len(),
        max_dc >= 1,
    ensures
        s_itrend_at(xs, max_dc, warmup, i) == v,
{
    if i < warmup {
    } else {
        lemma_it_const(xs, max_dc, v, i);
        if i >= 1 {
            lemma_it_const(xs, max_dc, v, (i - 1) as nat);
        }
        if i >= 2 {
            lemma_it_const(xs, max_dc, v, (i - 2) as nat);
        }
        if i >= 3 {
            lemma_it_const(xs, max_dc, v, (i - 3) as nat);
        }
        lemma_tdiv_exact(v, 10);
        assert(4 * v + 3 * v + 2 * v + v == v * 10) by (nonlinear_arith);
    }
}

} // verus!
