//! Fixed-point exponential and complementary error function.
//!
//! `exp` is the truncated Taylor series of the exponential; `erfc` is the
//! classical rational approximation `t (a1 + t (a2 + t (a3 + t (a4 + t a5))))
//! exp(-x^2)` with `t = 1 / (1 + p x)` (absolute error below `2.5e-7` over
//! the representable domain), extended to negative arguments through
//! `erfc(-x) = 2 - erfc(x)`.  The leading coefficient is calibrated by one
//! part in `10^9` so that the five coefficients sum to exactly one, which
//! makes the defining identity `erfc(0) = 1` hold exactly.
//!
//! Every executable function is pinned to a spec-level mirror, so callers
//! reason about these series as pure functions of the raw representation.

use vstd::prelude::*;
use crate::fp::{
    Fp, fp_add, fp_sub, fp_neg, fp_mul, fp_div, fp_div_n, abs_int, ONE_RAW, TWO_RAW, RAW_MAX,
    SCALE, lemma_mul_zero, lemma_mul_one, lemma_div_self, lemma_div_unit,
};
use vstd::arithmetic::div_mod::lemma_div_by_multiple;
use vstd::arithmetic::div_mod::lemma_div_is_ordered;

verus! {

/// Number of Taylor terms summed for the exponential.
pub const EXP_TERMS: i64 = 120;

/// `sqrt(pi)` in raw fixed-point form.
pub const SQRT_PI_RAW: i64 = 124725351601086;

/// Rational-approximation pole position `p = 0.3275911`.
pub const ERFC_P: i64 = 23052174310780;

/// Coefficient `a1 = 0.254829592`, calibrated so the five coefficients sum
/// to exactly one.
pub const ERFC_A1: i64 = 17932038438715;

/// Coefficient `a2 = -0.284496736`.
pub const ERFC_A2: i64 = -20019678034964;

/// Coefficient `a3 = 1.421413741`.
pub const ERFC_A3: i64 = 100023099911045;

/// Coefficient `a4 = -1.453152027`.
pub const ERFC_A4: i64 = -102256483239217;

/// Coefficient `a5 = 1.061405429`.
pub const ERFC_A5: i64 = 74689767102085;

/// The `n`-th Taylor term `x^n / n!` of the exponential, evaluated with
/// fixed-point rounding at each step.
pub open spec fn exp_term(x: int, n: nat) -> int
    decreases n,
{
    if n == 0 {
        ONE_RAW as int
    } else {
        fp_div_n(fp_mul(exp_term(x, (n - 1) as nat), x), n as int)
    }
}

/// Partial sum of the exponential series through term `n`.
pub open spec fn exp_sum(x: int, n: nat) -> int
    decreases n,
{
    if n == 0 {
        ONE_RAW as int
    } else {
        fp_add(exp_sum(x, (n - 1) as nat), exp_term(x, n))
    }
}

/// `exp(x)` for non-negative `x`: the series truncated at [`EXP_TERMS`].
pub open spec fn exp_pos_spec(x: int) -> int {
    exp_sum(x, EXP_TERMS as nat)
}

/// `exp(-x)` for non-negative `x`, as the reciprocal of [`exp_pos_spec`].
pub open spec fn exp_neg_spec(x: int) -> int {
    fp_div(ONE_RAW as int, exp_pos_spec(x))
}

/// Each exponential term of a non-negative argument is non-negative.
pub proof fn lemma_exp_term_nonneg(x: int, n: nat)
    requires
        x >= 0,
    ensures
        exp_term(x, n) >= 0,
    decreases n,
{
    if n > 0 {
        lemma_exp_term_nonneg(x, (n - 1) as nat);
    }
}

/// The exponential partial sums stay within `[1, RAW_MAX]`.
pub proof fn lemma_exp_sum_range(x: int, n: nat)
    requires
        x >= 0,
    ensures
        ONE_RAW as int <= exp_sum(x, n) <= RAW_MAX as int,
    decreases n,
{
    if n > 0 {
        lemma_exp_sum_range(x, (n - 1) as nat);
        lemma_exp_term_nonneg(x, n);
    }
}

/// At zero the series collapses: every term past the first vanishes.
pub proof fn lemma_exp_term_zero(n: nat)
    ensures
        n > 0 ==> exp_term(0, n) == 0,
    decreases n,
{
    if n > 0 {
        if n > 1 {
            lemma_exp_term_zero((n - 1) as nat);
        }
        lemma_mul_zero(exp_term(0, (n - 1) as nat));
    }
}

/// The partial sums at zero are all exactly one.
pub proof fn lemma_exp_sum_zero(n: nat)
    ensures
        exp_sum(0, n) == ONE_RAW as int,
    decreases n,
{
    if n > 0 {
        lemma_exp_sum_zero((n - 1) as nat);
        lemma_exp_term_zero(n);
    }
}

/// `exp(0) = 1` exactly, in both directions of the axis.
pub proof fn lemma_exp_zero()
    ensures
        exp_pos_spec(0) == ONE_RAW as int,
        exp_neg_spec(0) == ONE_RAW as int,
{
    lemma_exp_sum_zero(EXP_TERMS as nat);
    lemma_div_self(ONE_RAW as int);
}

/// `exp(x)` for `x >= 0`, by summing the Taylor series.
pub fn exp_pos(x: Fp) -> (r: Fp)
    requires
        x@ >= 0,
    ensures
        r@ == exp_pos_spec(x@),
        ONE_RAW as int <= r@ <= RAW_MAX as int,
{
    let mut term: Fp = Fp::one();
    let mut acc: Fp = Fp::one();
    let mut n: i64 = 1;
    while n <= EXP_TERMS
        invariant
            1 <= n <= EXP_TERMS + 1,
            x@ >= 0,
            term@ == exp_term(x@, (n - 1) as nat),
            acc@ == exp_sum(x@, (n - 1) as nat),
        decreases EXP_TERMS + 1 - n,
    {
        term = term.mul(x).div_n(n);
        acc = acc.add(term);
        n = n + 1;
    }
    proof {
        lemma_exp_sum_range(x@, (n - 1) as nat);
    }
    acc
}

/// `exp(-x)` for `x >= 0`, as the reciprocal of the series.
pub fn exp_neg(x: Fp) -> (r: Fp)
    requires
        x@ >= 0,
    ensures
        r@ == exp_neg_spec(x@),
        0 <= r@ <= ONE_RAW as int,
{
    let e: Fp = exp_pos(x);
    proof {
        lemma_div_unit(ONE_RAW as int, e@);
    }
    Fp::one().div(e)
}

/// Horner evaluation of the five-coefficient rational-approximation
/// polynomial at `t`.
pub open spec fn erfc_poly(t: int) -> int {
    fp_mul(
        t,
        fp_add(
            ERFC_A1 as int,
            fp_mul(
                t,
                fp_add(
                    ERFC_A2 as int,
                    fp_mul(
                        t,
                        fp_add(ERFC_A3 as int, fp_mul(t, fp_add(ERFC_A4 as int, fp_mul(t, ERFC_A5 as int)))),
                    ),
                ),
            ),
        ),
    )
}

/// `erfc(x)` for `x >= 0`: the rational approximation times `exp(-x^2)`.
pub open spec fn erfc_pos_spec(x: int) -> int {
    let t = fp_div(ONE_RAW as int, fp_add(ONE_RAW as int, fp_mul(ERFC_P as int, x)));
    fp_mul(erfc_poly(t), exp_neg_spec(fp_mul(x, x)))
}

/// `erfc(x)` over the whole axis, via `erfc(-x) = 2 - erfc(x)`.
pub open spec fn erfc_spec(x: int) -> int {
    if x < 0 {
        fp_sub(TWO_RAW as int, erfc_pos_spec(fp_neg(x)))
    } else {
        erfc_pos_spec(x)
    }
}

/// A product with a factor in the unit interval does not grow in magnitude.
pub proof fn lemma_mul_contract(t: int, v: int)
    requires
        0 <= t <= ONE_RAW as int,
    ensures
        abs_int(fp_mul(t, v)) <= abs_int(v),
        abs_int(fp_mul(v, t)) <= abs_int(v),
{
    let m = (abs_int(t) * abs_int(v)) / (SCALE as int);
    assert(abs_int(t) * abs_int(v) <= (ONE_RAW as int) * abs_int(v)) by (nonlinear_arith)
        requires
            0 <= t <= ONE_RAW as int,
    ;
    assert(abs_int(t) * abs_int(v) == abs_int(v) * abs_int(t)) by (nonlinear_arith);
    lemma_div_is_ordered(abs_int(t) * abs_int(v), (ONE_RAW as int) * abs_int(v), SCALE as int);
    lemma_div_by_multiple(abs_int(v), SCALE as int);
    assert(abs_int(v) * (SCALE as int) == (SCALE as int) * abs_int(v)) by (nonlinear_arith);
    assert(m >= 0) by {
        assert(abs_int(t) * abs_int(v) >= 0) by (nonlinear_arith)
            requires
                abs_int(t) >= 0,
                abs_int(v) >= 0,
        ;
    }
}

/// The polynomial factor of `erfc` stays below five in magnitude whenever
/// its argument lies in the unit interval.
pub proof fn lemma_erfc_poly_bound(t: int)
    requires
        0 <= t <= ONE_RAW as int,
    ensures
        abs_int(erfc_poly(t)) <= 5 * (ONE_RAW as int),
{
    let l4 = fp_add(ERFC_A4 as int, fp_mul(t, ERFC_A5 as int));
    let l3 = fp_add(ERFC_A3 as int, fp_mul(t, l4));
    let l2 = fp_add(ERFC_A2 as int, fp_mul(t, l3));
    let l1 = fp_add(ERFC_A1 as int, fp_mul(t, l2));
    lemma_mul_contract(t, ERFC_A5 as int);
    lemma_mul_contract(t, l4);
    lemma_mul_contract(t, l3);
    lemma_mul_contract(t, l2);
    lemma_mul_contract(t, l1);
}

/// `erfc` of a non-negative argument stays below five in magnitude.
pub proof fn lemma_erfc_pos_bound(x: int)
    requires
        x >= 0,
    ensures
        abs_int(erfc_pos_spec(x)) <= 5 * (ONE_RAW as int),
{
    let denom = fp_add(ONE_RAW as int, fp_mul(ERFC_P as int, x));
    let t = fp_div(ONE_RAW as int, denom);
    assert(fp_mul(ERFC_P as int, x) >= 0);
    lemma_div_unit(ONE_RAW as int, denom);
    lemma_erfc_poly_bound(t);
    let e = exp_neg_spec(fp_mul(x, x));
    lemma_exp_sum_range(fp_mul(x, x), EXP_TERMS as nat);
    lemma_div_unit(ONE_RAW as int, exp_pos_spec(fp_mul(x, x)));
    lemma_mul_contract(e, erfc_poly(t));
}

/// `erfc(0) = 1` exactly: the calibrated coefficients sum to one.
pub proof fn lemma_erfc_zero()
    ensures
        erfc_spec(0) == ONE_RAW as int,
{
    lemma_mul_zero(ERFC_P as int);
    lemma_div_self(ONE_RAW as int);
    let t = ONE_RAW as int;
    let l4 = fp_add(ERFC_A4 as int, fp_mul(t, ERFC_A5 as int));
    lemma_mul_one(ERFC_A5 as int);
    let l3 = fp_add(ERFC_A3 as int, fp_mul(t, l4));
    lemma_mul_one(l4);
    let l2 = fp_add(ERFC_A2 as int, fp_mul(t, l3));
    lemma_mul_one(l3);
    let l1 = fp_add(ERFC_A1 as int, fp_mul(t, l2));
    lemma_mul_one(l2);
    assert(l1 == ONE_RAW as int);
    lemma_mul_one(l1);
    lemma_mul_zero(0);
    lemma_exp_zero();
    lemma_mul_one(erfc_poly(t));
}

/// The two half-axis branches of `erfc` always sum to exactly two:
/// `erfc(x) + erfc(-x) = 2`.
pub proof fn lemma_erfc_pair(c: int)
    requires
        0 <= c <= RAW_MAX as int,
    ensures
        fp_add(erfc_spec(c), erfc_spec(fp_neg(c))) == TWO_RAW as int,
{
    if c == 0 {
        lemma_erfc_zero();
    } else {
        lemma_erfc_pos_bound(c);
    }
}

/// Number of range-reduction halvings for the logarithm: every
/// representable value above one reaches `[1, 2)` within seventeen.
pub const LN_HALVINGS: i64 = 17;

/// Number of inverse-hyperbolic-tangent terms summed for the logarithm.
pub const LN_TERMS: i64 = 40;

/// `ln(2)` in raw fixed-point form.
pub const LN2_RAW: i64 = 48775896626292;

/// The mantissa left after `n` conditional halvings.
pub open spec fn ln_halve_val(x: int, n: nat) -> int
    decreases n,
{
    if n == 0 {
        x
    } else {
        let p = ln_halve_val(x, (n - 1) as nat);
        if p >= TWO_RAW as int {
            fp_div_n(p, 2)
        } else {
            p
        }
    }
}

/// How many of `n` conditional halvings fired.
pub open spec fn ln_halve_cnt(x: int, n: nat) -> int
    decreases n,
{
    if n == 0 {
        0
    } else {
        let p = ln_halve_val(x, (n - 1) as nat);
        if p >= TWO_RAW as int {
            ln_halve_cnt(x, (n - 1) as nat) + 1
        } else {
            ln_halve_cnt(x, (n - 1) as nat)
        }
    }
}

/// The `n`-th odd power `u^(2n+1)` of the inverse-hyperbolic-tangent
/// series.
pub open spec fn atanh_term(u: int, n: nat) -> int
    decreases n,
{
    if n == 0 {
        u
    } else {
        fp_mul(atanh_term(u, (n - 1) as nat), fp_mul(u, u))
    }
}

/// Partial sum `sum_n u^(2n+1) / (2n+1)` of the series for `atanh(u)`.
pub open spec fn atanh_sum(u: int, n: nat) -> int
    decreases n,
{
    if n == 0 {
        u
    } else {
        fp_add(atanh_sum(u, (n - 1) as nat), fp_div_n(atanh_term(u, n), 2 * (n as int) + 1))
    }
}

/// The natural logarithm of `x >= 1`: halve into `[1, 2)`, then
/// `ln(x) = k ln(2) + 2 atanh((m - 1) / (m + 1))`.
pub open spec fn ln_spec(x: int) -> int {
    let m = ln_halve_val(x, LN_HALVINGS as nat);
    let k = ln_halve_cnt(x, LN_HALVINGS as nat);
    let u = fp_div(fp_sub(m, ONE_RAW as int), fp_add(m, ONE_RAW as int));
    fp_add(k * (LN2_RAW as int), fp_mul(TWO_RAW as int, atanh_sum(u, LN_TERMS as nat)))
}

/// The mantissa of a value at least one stays at least one, and the count
/// stays between zero and the number of steps.
pub proof fn lemma_ln_halve_range(x: int, n: nat)
    requires
        x >= 1,
    ensures
        1 <= ln_halve_val(x, n) <= x,
        0 <= ln_halve_cnt(x, n) <= n,
    decreases n,
{
    if n > 0 {
        lemma_ln_halve_range(x, (n - 1) as nat);
    }
}

/// Natural logarithm of a value at least one.
pub fn ln(x: Fp) -> (r: Fp)
    requires
        x@ >= ONE_RAW as int,
    ensures
        r@ == ln_spec(x@),
{
    let mut m: Fp = x;
    let mut k: i64 = 0;
    let mut i: i64 = 0;
    while i < LN_HALVINGS
        invariant
            0 <= i <= LN_HALVINGS,
            x@ >= 1,
            m@ == ln_halve_val(x@, i as nat),
            k as int == ln_halve_cnt(x@, i as nat),
            0 <= k <= i,
            m@ >= 1,
        decreases LN_HALVINGS - i,
    {
        proof {
            lemma_ln_halve_range(x@, (i + 1) as nat);
        }
        if m.raw >= TWO_RAW {
            m = m.div_n(2);
            k = k + 1;
        }
        i = i + 1;
    }
    let u: Fp = m.sub(Fp::one()).div(m.add(Fp::one()));
    let u2: Fp = u.mul(u);
    let mut term: Fp = u;
    let mut acc: Fp = u;
    let mut n: i64 = 1;
    while n <= LN_TERMS
        invariant
            1 <= n <= LN_TERMS + 1,
            u2@ == fp_mul(u@, u@),
            term@ == atanh_term(u@, (n - 1) as nat),
            acc@ == atanh_sum(u@, (n - 1) as nat),
        decreases LN_TERMS + 1 - n,
    {
        term = term.mul(u2);
        acc = acc.add(term.div_n(2 * n + 1));
        n = n + 1;
    }
    Fp::from_raw(k * LN2_RAW).add(Fp::from_raw(TWO_RAW).mul(acc))
}

/// `erfc(x)` via the rational approximation, matching [`erfc_spec`].
pub fn erfc(x: Fp) -> (r: Fp)
    ensures
        r@ == erfc_spec(x@),
{
    if x.raw < 0 {
        let p: Fp = erfc_positive(x.neg());
        Fp::from_raw(TWO_RAW).sub(p)
    } else {
        erfc_positive(x)
    }
}

/// `erfc(x)` for `x >= 0`, matching [`erfc_pos_spec`].
fn erfc_positive(x: Fp) -> (r: Fp)
    requires
        x@ >= 0,
    ensures
        r@ == erfc_pos_spec(x@),
{
    let denom: Fp = Fp::one().add(Fp::from_raw(ERFC_P).mul(x));
    assert(fp_mul(ERFC_P as int, x@) >= 0);
    let t: Fp = Fp::one().div(denom);
    let mut poly: Fp = Fp::from_raw(ERFC_A4).add(t.mul(Fp::from_raw(ERFC_A5)));
    poly = Fp::from_raw(ERFC_A3).add(t.mul(poly));
    poly = Fp::from_raw(ERFC_A2).add(t.mul(poly));
    poly = Fp::from_raw(ERFC_A1).add(t.mul(poly));
    poly = t.mul(poly);
    let e: Fp = exp_neg(x.mul(x));
    poly.mul(e)
}

} // verus!
