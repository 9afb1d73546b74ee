//! The MESA Adaptive Moving Average pair (MAMA / FAMA).
//!
//! The adaptive smoothing coefficient is recomputed every sample from
//! the cycle engine's delta-phase and bounded between the configured
//! slow and fast limits; the first average applies it to the raw
//! price, the second applies half of it to the first average's
//! output.
//!
//! The contract of [`mama`] pins every output value to the spec-level
//! recurrence [`s_mama_at`], so two calls with the same input and
//! parameters return the same sequences, output length always equals
//! input length, and each error comes exactly on the inputs stated.

use vstd::prelude::*;
use crate::cycle::{alpha_step, cycle_run, lemma_cycle_run_wf, price_back, s_alpha, CycleState};
use crate::fixed::{
    lemma_mul_abs, lemma_tdiv_le, lemma_tdiv_mag, s_abs, s_tdiv, tdiv, Fx, FX_ABS_MAX, FX_SCALE,
};

verus! {

/// The raw fixed-point values of a price sequence.
pub open spec fn fx_vals(s: Seq<Fx>) -> Seq<int> {
    Seq::new(s.len(), |i: int| s[i]@)
}

/// A limit is admissible when it is positive and at most one: the
/// adaptive coefficient is a smoothing weight.
pub open spec fn valid_limit(v: int) -> bool {
    0 < v <= FX_SCALE
}

/// Configuration of the adaptive average pair.
#[derive(Debug, Clone, PartialEq)]
pub struct MamaParams {
    /// Upper bound on the adaptive coefficient; defaults to 0.5.
    pub fast_limit: Option<Fx>,
    /// Lower bound on the adaptive coefficient; defaults to 0.05.
    pub slow_limit: Option<Fx>,
}

/// Raw default limits: 0.5 and 0.05 in fixed point.
pub const DEFAULT_FAST_LIMIT_RAW: i128 = 134217728;

/// Raw default slow limit, 0.05 in fixed point.
pub const DEFAULT_SLOW_LIMIT_RAW: i128 = 13421772;

impl Default for MamaParams {
    /// The customary limits: fast 0.5, slow 0.05.
    fn default() -> (r: Self)
        ensures
            r.fast_limit is Some && r.fast_limit->0@ == DEFAULT_FAST_LIMIT_RAW,
            r.slow_limit is Some && r.slow_limit->0@ == DEFAULT_SLOW_LIMIT_RAW,
    {
        MamaParams {
            fast_limit: Some(Fx::from_raw(DEFAULT_FAST_LIMIT_RAW)),
            slow_limit: Some(Fx::from_raw(DEFAULT_SLOW_LIMIT_RAW)),
        }
    }
}

impl MamaParams {
    /// The default configuration under its customary name.
    pub fn with_default_params() -> (r: Self)
        ensures
            r.fast_limit is Some && r.fast_limit->0@ == DEFAULT_FAST_LIMIT_RAW,
            r.slow_limit is Some && r.slow_limit->0@ == DEFAULT_SLOW_LIMIT_RAW,
    {
        Self::default()
    }
}

/// The fast limit a configuration denotes, defaulted when absent.
pub open spec fn fast_limit_of(p: MamaParams) -> int {
    if p.fast_limit is Some {
        p.fast_limit->0@
    } else {
        DEFAULT_FAST_LIMIT_RAW as int
    }
}

/// The slow limit a configuration denotes, defaulted when absent.
pub open spec fn slow_limit_of(p: MamaParams) -> int {
    if p.slow_limit is Some {
        p.slow_limit->0@
    } else {
        DEFAULT_SLOW_LIMIT_RAW as int
    }
}

/// The input of the adaptive average pair: a price sequence and the
/// limit configuration.
#[derive(Debug, Clone)]
pub struct MamaInput<'a> {
    /// The price series.
    pub data: &'a Vec<Fx>,
    /// The limit configuration.
    pub params: MamaParams,
}

impl<'a> MamaInput<'a> {
    /// Wrap a price sequence with a configuration.
    pub fn from_slice(data: &'a Vec<Fx>, params: MamaParams) -> (r: Self)
        ensures
            r.data == data,
            r.params == params,
    {
        MamaInput { data, params }
    }

    /// The fast limit in effect.
    pub fn get_fast_limit(&self) -> (r: Fx)
        ensures
            r@ == fast_limit_of(self.params),
    {
        match self.params.fast_limit {
            Some(f) => f,
            None => Fx::from_raw(DEFAULT_FAST_LIMIT_RAW),
        }
    }

    /// The slow limit in effect.
    pub fn get_slow_limit(&self) -> (r: Fx)
        ensures
            r@ == slow_limit_of(self.params),
    {
        match self.params.slow_limit {
            Some(f) => f,
            None => Fx::from_raw(DEFAULT_SLOW_LIMIT_RAW),
        }
    }
}

/// The two output sequences, index-aligned with the input.
#[derive(Debug, Clone)]
pub struct MamaOutput {
    /// The adaptive average of the price.
    pub mama_values: Vec<Fx>,
    /// The slower companion line.
    pub fama_values: Vec<Fx>,
}

/// The failures of the adaptive average pair, each tied by the
/// contract of [`mama`] to exactly the inputs that raise it.
#[derive(Debug, Clone, Copy, PartialEq, Eq)]
pub enum MamaError {
    /// Fewer samples than the ten the filters need.
    NotEnoughData {
        /// The least admissible length.
        needed: usize,
        /// The length that was supplied.
        found: usize,
    },
    /// A fast limit outside `(0, 1]`.
    InvalidFastLimit {
        /// The offending limit.
        fast_limit: Fx,
    },
    /// A slow limit outside `(0, 1]`.
    InvalidSlowLimit {
        /// The offending limit.
        slow_limit: Fx,
    },
}

/// The adaptive coefficient in effect at sample `i`.
pub open spec fn s_alpha_at(xs: Seq<int>, fast: int, slow: int, i: nat) -> int {
    s_alpha(fast, slow, cycle_run(xs, (i + 1) as nat).dp)
}

/// The value pair `(mama, fama)` at sample `i`: each average moves
/// from its previous value toward its source by the adaptive
/// coefficient (halved for the companion line), both starting from
/// the first price.
pub open spec fn s_mama_at(xs: Seq<int>, fast: int, slow: int, i: nat) -> (int, int)
    decreases i,
{
    let a = s_alpha_at(xs, fast, slow, i);
    let x = xs[i as int];
    let prev = if i == 0 {
        (xs[0], xs[0])
    } else {
        s_mama_at(xs, fast, slow, (i - 1) as nat)
    };
    let m = prev.0 + s_tdiv(a * (x - prev.0), FX_SCALE as int);
    let a2 = s_tdiv(a, 2);
    let fa = prev.1 + s_tdiv(a2 * (m - prev.1), FX_SCALE as int);
    (m, fa)
}

/// Move `prev` toward `x` by the weight `alpha`: the exponential
/// smoothing step `alpha * x + (1 - alpha) * prev` in its exact
/// incremental form. The result stays between `prev` and `x`.
fn ema_toward(prev: i128, x: i128, alpha: i128) -> (r: i128)
    requires
        s_abs(prev as int) <= FX_ABS_MAX,
        s_abs(x as int) <= FX_ABS_MAX,
        0 <= alpha <= FX_SCALE,
    ensures
        r as int == prev + s_tdiv(alpha as int * (x - prev), FX_SCALE as int),
        s_abs(r as int) <= FX_ABS_MAX,
{
    proof {
        lemma_mul_abs(alpha as int, x as int - prev, FX_SCALE as int, 2 * FX_ABS_MAX as int);
        lemma_tdiv_mag(alpha as int * (x as int - prev), FX_SCALE as int);
        assert(s_abs(alpha as int * (x as int - prev)) <= FX_SCALE as int * s_abs(
            x as int - prev,
        )) by (nonlinear_arith)
            requires
                0 <= alpha <= FX_SCALE,
        ;
        lemma_tdiv_le(alpha as int * (x as int - prev), FX_SCALE as int, s_abs(x as int - prev));
        if x >= prev {
            assert(alpha as int * (x as int - prev) >= 0) by (nonlinear_arith)
                requires
                    alpha >= 0 && x as int - prev >= 0,
            ;
        } else {
            assert(alpha as int * (x as int - prev) <= 0) by (nonlinear_arith)
                requires
                    alpha >= 0 && x as int - prev <= 0,
            ;
        }
    }
    prev + tdiv(alpha * (x - prev), FX_SCALE)
}

/// Compute the adaptive average pair over a price sequence.
///
/// On success the two outputs are index-aligned with the input and
/// every value equals the recurrence `s_mama_at`; the errors come
/// exactly on short inputs and out-of-range limits, in that order of
/// checks.
pub fn mama(input: &MamaInput) -> (res: Result<MamaOutput, MamaError>)
    ensures
        mama_contract(input.data@, input.params, res),
{
    let n = input.data.len();
    if n < 10 {
        return Err(MamaError::NotEnoughData { needed: 10, found: n });
    }
    let fast = input.get_fast_limit();
    let slow = input.get_slow_limit();
    let fast_raw = fast.raw();
    let slow_raw = slow.raw();
    if !(0 < fast_raw && fast_raw <= FX_SCALE) {
        return Err(MamaError::InvalidFastLimit { fast_limit: fast });
    }
    if !(0 < slow_raw && slow_raw <= FX_SCALE) {
        return Err(MamaError::InvalidSlowLimit { slow_limit: slow });
    }

    let ghost xs = fx_vals(input.data@);
    let mut st = CycleState::new();
    let mut out_m: Vec<Fx> = Vec::new();
    let mut out_f: Vec<Fx> = Vec::new();

    let x0 = input.data[0];
    let mut pm: i128 = x0.raw();
    let mut pf: i128 = pm;

    let mut i: usize = 0;
    while i < n
        invariant
            n == input.data@.len(),
            10 <= n,
            i <= n,
            xs == fx_vals(input.data@),
            xs.len() == n,
            fast_raw as int == fast_limit_of(input.params),
            slow_raw as int == slow_limit_of(input.params),
            0 < fast_raw <= FX_SCALE,
            0 < slow_raw <= FX_SCALE,
            st.wf(),
            st@ == cycle_run(xs, i as nat),
            out_m@.len() == i,
            out_f@.len() == i,
            forall|j: int|
                0 <= j < i ==> out_m@[j]@ == s_mama_at(
                    xs,
                    fast_raw as int,
                    slow_raw as int,
                    j as nat,
                ).0,
            forall|j: int|
                0 <= j < i ==> out_f@[j]@ == s_mama_at(
                    xs,
                    fast_raw as int,
                    slow_raw as int,
                    j as nat,
                ).1,
            i == 0 ==> pm as int == xs[0] && pf as int == xs[0],
            i >= 1 ==> (pm as int, pf as int) == s_mama_at(
                xs,
                fast_raw as int,
                slow_raw as int,
                (i - 1) as nat,
            ),
            s_abs(pm as int) <= FX_ABS_MAX,
            s_abs(pf as int) <= FX_ABS_MAX,
        decreases n - i,
    {
        let xi = input.data[i];
        let xr = xi.raw();
        let x1 = if i >= 1 {
            input.data[i - 1].raw()
        } else {
            xr
        };
        let x2 = if i >= 2 {
            input.data[i - 2].raw()
        } else {
            xr
        };
        let x3 = if i >= 3 {
            input.data[i - 3].raw()
        } else {
            xr
        };
        proof {
            assert(xs[i as int] == input.data@[i as int]@);
            assert(x1 as int == price_back(xs, i as int, 1));
            assert(x2 as int == price_back(xs, i as int, 2));
            assert(x3 as int == price_back(xs, i as int, 3));
            crate::cycle::lemma_cycle_run_len(xs, i as nat);
        }
        st.step(xr, x1, x2, x3);
        let dp = st.dp_val();
        let alpha = alpha_step(fast_raw, slow_raw, dp);
        let a2 = tdiv(alpha, 2);
        proof {
            lemma_tdiv_mag(alpha as int, 2);
        }
        let nm = ema_toward(pm, xr, alpha);
        let nf = ema_toward(pf, nm, a2);
        out_m.push(Fx::from_raw(nm));
        out_f.push(Fx::from_raw(nf));
        pm = nm;
        pf = nf;
        i = i + 1;
    }
    Ok(MamaOutput { mama_values: out_m, fama_values: out_f })
}

/// What [`mama`] promises of its result, over the raw values of the
/// input and the configured limits.
pub open spec fn mama_contract(
    data: Seq<Fx>,
    params: MamaParams,
    res: Result<MamaOutput, MamaError>,
) -> bool {
    let xs = fx_vals(data);
    let f = fast_limit_of(params);
    let s = slow_limit_of(params);
    match res {
        Ok(out) => {
            &&& data.len() >= 10
            &&& valid_limit(f)
            &&& valid_limit(s)
            &&& out.mama_values@.len() == data.len()
            &&& out.fama_values@.len() == data.len()
            &&& forall|j: int|
                0 <= j < data.len() ==> out.mama_values@[j]@ == s_mama_at(xs, f, s, j as nat).0
            &&& forall|j: int|
                0 <= j < data.len() ==> out.fama_values@[j]@ == s_mama_at(xs, f, s, j as nat).1
        },
        Err(e) => match e {
            MamaError::NotEnoughData { needed, found } => {
                &&& needed == 10
                &&& found == data.len()
                &&& data.len() < 10
            },
            MamaError::InvalidFastLimit { fast_limit } => {
                &&& data.len() >= 10
                &&& !valid_limit(f)
                &&& fast_limit@ == f
            },
            MamaError::InvalidSlowLimit { slow_limit } => {
                &&& data.len() >= 10
                &&& valid_limit(f)
                &&& !valid_limit(s)
                &&& slow_limit@ == s
            },
        },
    }
}

/// The adaptive average pair as a plain function of a slice and two
/// limits; one engine serves both entry points, so the contract is
/// the same.
pub fn calculate_mama_fama(src: &Vec<Fx>, fast_limit: Fx, slow_limit: Fx) -> (res: Result<
    (Vec<Fx>, Vec<Fx>),
    MamaError,
>)
    ensures
        mama_contract(
            src@,
            MamaParams { fast_limit: Some(fast_limit), slow_limit: Some(slow_limit) },
            match res {
                Ok(p) => Ok(MamaOutput { mama_values: p.0, fama_values: p.1 }),
                Err(e) => Err(e),
            },
        ),
{
    let params = MamaParams { fast_limit: Some(fast_limit), slow_limit: Some(slow_limit) };
    let input = MamaInput { data: src, params };
    match mama(&input) {
        Ok(out) => Ok((out.mama_values, out.fama_values)),
        Err(e) => Err(e),
    }
}

/// Alpha bounds: at every sample the adaptive coefficient lies
/// between the slow and fast limits, whenever the limits are
/// admissible and ordered.
pub proof fn lemma_alpha_bounds(xs: Seq<int>, fast: int, slow: int, i: nat)
    requires
        valid_limit(fast),
        valid_limit(slow),
        slow <= fast,
    ensures
        slow <= s_alpha_at(xs, fast, slow, i) <= fast,
{
    lemma_cycle_run_wf(xs, (i + 1) as nat);
    let dp = cycle_run(xs, (i + 1) as nat).dp;
    lemma_tdiv_mag(fast * FX_SCALE, dp);
    assert(fast * FX_SCALE >= 0) by (nonlinear_arith)
        requires
            fast > 0,
    ;
}

/// Constant-input stability: when every price equals `v`, both
/// averages equal `v` at every sample, whatever the limits.
pub proof fn lemma_mama_constant_input(xs: Seq<int>, fast: int, slow: int, v: int, i: nat)
    requires
        forall|j: int| 0 <= j < xs.len() ==> xs[j] == v,
        i < xs.len(),
    ensures
        s_mama_at(xs, fast, slow, i) == (v, v),
    decreases i,
{
    let a = s_alpha_at(xs, fast, slow, i);
    if i == 0 {
        assert(a * (v - v) == 0) by (nonlinear_arith);
        assert(s_tdiv(0, FX_SCALE as int) == 0);
        assert(s_tdiv(s_tdiv(a, 2) * 0, FX_SCALE as int) == 0) by {
            assert(s_tdiv(a, 2) * 0 == 0) by (nonlinear_arith);
        }
    } else {
        lemma_mama_constant_input(xs, fast, slow, v, (i - 1) as nat);
        assert(a * (v - v) == 0) by (nonlinear_arith);
        assert(s_tdiv(0, FX_SCALE as int) == 0);
        assert(s_tdiv(s_tdiv(a, 2) * 0, FX_SCALE as int) == 0) by {
            assert(s_tdiv(a, 2) * 0 == 0) by (nonlinear_arith);
        }
    }
}

} // verus!
