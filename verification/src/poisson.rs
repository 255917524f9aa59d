//! Polynomial (Poisson) switching with a configurable smoothness order.
//!
//! For order `k` the switching function is
//! `S(q) = (1-q)^(k+1) * T(q)` with `T(q) = sum_c binom(k+c, c) q^c`
//! for `c = 0 .. k`: the truncated binomial series of `(1-q)^-(k+1)`.
//! The factor `(1-q)^(k+1)` makes `S` and its first `k` derivatives vanish
//! at the cutoff, while the series makes `S(0) = 1` and `S'(0) = 0`.
//! Derivatives are evaluated in the same factored form, so the vanishing
//! at `q = 1` is exact in the fixed-point representation as well.
//!
//! Binomial coefficients are built by the exact recurrence
//! `b_c = b_(c-1) (k+c) / c`, saturating at the representable maximum for
//! very large orders.

use vstd::prelude::*;
use crate::fp::{
    Fp, fp_add, fp_sub, fp_mul, sat_mag, ONE_RAW, RAW_MAX,
    lemma_mul_zero, lemma_mul_one,
};
use crate::cutoff::Cutoff;
use crate::shortrange::{SelfEnergyPrefactors, ShortRangeFunction};

verus! {

/// Raw value of the number twelve: `d3S/dq3` of the order-one scheme.
pub const TWELVE_RAW: i64 = 844424930131968;

/// Largest accepted smoothness order (keeps every derivative coefficient
/// representable).
pub const MAX_ORDER: usize = 20;

/// Binomial-series coefficient `binom(k+c, c)` (times one), built by the
/// exact recurrence and saturating at the representable maximum.
pub open spec fn pcoef(k: nat, c: nat) -> int
    decreases c,
{
    if c == 0 {
        ONE_RAW as int
    } else {
        sat_mag((pcoef(k, (c - 1) as nat) * (k + c)) / (c as int))
    }
}

/// Coefficient `j` of `dT/dq`.
pub open spec fn d1coef(k: nat, j: nat) -> int {
    fp_mul(pcoef(k, (j + 1) as nat), (j + 1) * (ONE_RAW as int))
}

/// Coefficient `j` of `d2T/dq2`.
pub open spec fn d2coef(k: nat, j: nat) -> int {
    fp_mul(d1coef(k, (j + 1) as nat), (j + 1) * (ONE_RAW as int))
}

/// Coefficient `j` of `d3T/dq3`.
pub open spec fn d3coef(k: nat, j: nat) -> int {
    fp_mul(d2coef(k, (j + 1) as nat), (j + 1) * (ONE_RAW as int))
}

/// Fixed-point Horner evaluation of a polynomial given by its
/// coefficients, lowest order first.
pub open spec fn poly_eval(s: Seq<Fp>, q: int) -> int
    decreases s.len(),
{
    if s.len() == 0 {
        0
    } else {
        fp_add(s[0]@, fp_mul(q, poly_eval(s.subrange(1, s.len() as int), q)))
    }
}

/// Fixed-point power `w^e`.
pub open spec fn fpow(w: int, e: nat) -> int
    decreases e,
{
    if e == 0 {
        ONE_RAW as int
    } else {
        fp_mul(fpow(w, (e - 1) as nat), w)
    }
}

/// The binomial-series coefficients stay in `[1, RAW_MAX]`.
pub proof fn lemma_pcoef_range(k: nat, c: nat)
    ensures
        1 <= pcoef(k, c) <= RAW_MAX as int,
    decreases c,
{
    if c > 0 {
        lemma_pcoef_range(k, (c - 1) as nat);
        let b = pcoef(k, (c - 1) as nat);
        assert(b * (k + c) >= 1 * (c as int)) by (nonlinear_arith)
            requires
                b >= 1,
                k + c >= c,
                c >= 1,
        ;
        vstd::arithmetic::div_mod::lemma_div_is_ordered(c as int, b * (k + c), c as int);
        vstd::arithmetic::div_mod::lemma_div_by_multiple(1, c as int);
        assert(1 * (c as int) == (c as int) * 1) by (nonlinear_arith);
    }
}

/// A power of exactly one is exactly one.
pub proof fn lemma_fpow_one(e: nat)
    ensures
        fpow(ONE_RAW as int, e) == ONE_RAW as int,
    decreases e,
{
    if e > 0 {
        lemma_fpow_one((e - 1) as nat);
        lemma_mul_one(ONE_RAW as int);
    }
}

/// A positive power of exactly zero is exactly zero.
pub proof fn lemma_fpow_zero(e: nat)
    requires
        e >= 1,
    ensures
        fpow(0, e) == 0,
{
    lemma_mul_zero(fpow(0, (e - 1) as nat));
}

/// Scheme record for polynomial switching of a given smoothness order.
#[derive(Clone, Debug)]
pub struct Poisson {
    /// Interaction cutoff distance.
    pub cutoff: Fp,
    /// Smoothness order `k`: the number of derivatives of `S` that vanish
    /// at the cutoff.
    pub order: usize,
    /// Coefficients of `T`.
    pub coeffs: Vec<Fp>,
    /// Coefficients of `dT/dq`.
    pub dc1: Vec<Fp>,
    /// Coefficients of `d2T/dq2`.
    pub dc2: Vec<Fp>,
    /// Coefficients of `d3T/dq3`.
    pub dc3: Vec<Fp>,
}

impl Poisson {
    /// A new polynomial scheme with the given cutoff and smoothness order
    /// (between one and [`MAX_ORDER`]).
    pub fn new(cutoff: Fp, order: usize) -> (s: Poisson)
        requires
            cutoff@ > 0,
            1 <= order <= MAX_ORDER,
        ensures
            s.srf_wf(),
            s.cutoff@ == cutoff@,
            s.order == order,
    {
        let mut coeffs: Vec<Fp> = Vec::new();
        coeffs.push(Fp::one());
        let mut c: usize = 1;
        while c <= order
            invariant
                1 <= c <= order + 1,
                order <= MAX_ORDER,
                coeffs@.len() == c,
                forall|j: int|
                    0 <= j < c ==> #[trigger] coeffs@[j]@ == pcoef(order as nat, j as nat),
            decreases order + 1 - c,
        {
            proof {
                lemma_pcoef_range(order as nat, (c - 1) as nat);
                assert(coeffs@[(c - 1) as int]@ == pcoef(order as nat, (c - 1) as nat));
            }
            let prev: i64 = coeffs[c - 1].raw;
            assert(1 <= prev <= RAW_MAX);
            proof {
                assert((prev as u128) * (((order + c)) as u128) <= (RAW_MAX as u128) * 41u128)
                    by (nonlinear_arith)
                    requires
                        1 <= prev as u128 <= RAW_MAX as u128,
                        (order + c) as u128 <= 41u128,
                ;
            }
            let nu: u128 = (prev as u128) * ((order + c) as u128);
            let m: u128 = nu / (c as u128);
            let raw: i64 = if m > RAW_MAX as u128 {
                RAW_MAX
            } else {
                m as i64
            };
            proof {
                assert(nu as int == (pcoef(order as nat, (c - 1) as nat)) * ((order + c) as int));
                assert(m as int == (pcoef(order as nat, (c - 1) as nat) * ((order + c) as int))
                    / (c as int));
                assert(raw as int == pcoef(order as nat, c as nat));
            }
            coeffs.push(Fp::from_raw(raw));
            c = c + 1;
        }
        let dc1: Vec<Fp> = derive_coeffs(&coeffs);
        let dc2: Vec<Fp> = derive_coeffs(&dc1);
        let dc3: Vec<Fp> = derive_coeffs(&dc2);
        proof {
            assert forall|j: int| 0 <= j < dc2@.len() implies #[trigger] dc2@[j]@ == d2coef(
                order as nat,
                j as nat,
            ) by {
                assert(dc1@[j + 1]@ == d1coef(order as nat, (j + 1) as nat));
            }
            assert forall|j: int| 0 <= j < dc3@.len() implies #[trigger] dc3@[j]@ == d3coef(
                order as nat,
                j as nat,
            ) by {
                assert(dc2@[j + 1]@ == d2coef(order as nat, (j + 1) as nat));
            }
        }
        Poisson { cutoff, order, coeffs, dc1, dc2, dc3 }
    }
}

/// The coefficients of the derivative of the polynomial with the given
/// coefficients: entry `j` becomes `(j+1)` times entry `j+1`.
fn derive_coeffs(v: &Vec<Fp>) -> (r: Vec<Fp>)
    requires
        v@.len() <= MAX_ORDER + 1,
    ensures
        r@.len() == if v@.len() == 0 { 0int } else { v@.len() - 1 },
        forall|j: int|
            0 <= j < r@.len() ==> #[trigger] r@[j]@ == fp_mul(v@[j + 1]@, (j + 1) * (ONE_RAW as int)),
{
    let mut r: Vec<Fp> = Vec::new();
    if v.len() == 0 {
        return r;
    }
    let mut j: usize = 0;
    while j < v.len() - 1
        invariant
            v@.len() >= 1,
            v@.len() <= MAX_ORDER + 1,
            0 <= j <= v@.len() - 1,
            r@.len() == j,
            forall|i: int|
                0 <= i < j ==> #[trigger] r@[i]@ == fp_mul(v@[i + 1]@, (i + 1) * (ONE_RAW as int)),
        decreases v@.len() - j,
    {
        let mult: i64 = ((j + 1) as i64) * ONE_RAW;
        r.push(v[j + 1].mul(Fp::from_raw(mult)));
        j = j + 1;
    }
    r
}

/// Fixed-point Horner evaluation, highest order first.
fn horner(v: &Vec<Fp>, q: Fp) -> (r: Fp)
    ensures
        r@ == poly_eval(v@, q@),
{
    let mut acc: Fp = Fp::zero();
    let mut i: usize = v.len();
    while i > 0
        invariant
            0 <= i <= v@.len(),
            acc@ == poly_eval(v@.subrange(i as int, v@.len() as int), q@),
        decreases i,
    {
        i = i - 1;
        proof {
            let tail = v@.subrange(i as int, v@.len() as int);
            assert(tail[0] == v@[i as int]);
            assert(tail.subrange(1, tail.len() as int) =~= v@.subrange(
                i + 1 as int,
                v@.len() as int,
            ));
        }
        acc = v[i].add(q.mul(acc));
    }
    proof {
        assert(v@.subrange(0, v@.len() as int) =~= v@);
    }
    acc
}

/// Fixed-point power `w^e` by repeated multiplication.
fn fpow_exec(w: Fp, e: usize) -> (r: Fp)
    ensures
        r@ == fpow(w@, e as nat),
{
    let mut acc: Fp = Fp::one();
    let mut i: usize = 0;
    while i < e
        invariant
            0 <= i <= e,
            acc@ == fpow(w@, i as nat),
        decreases e - i,
    {
        acc = acc.mul(w);
        i = i + 1;
    }
    acc
}

impl Cutoff for Poisson {
    open spec fn cutoff_spec(&self) -> int {
        self.cutoff@
    }

    open spec fn lower_cutoff_spec(&self) -> int {
        0
    }

    fn cutoff(&self) -> (r: Fp) {
        self.cutoff
    }

    fn cutoff_squared(&self) -> (r: Fp) {
        self.cutoff.mul(self.cutoff)
    }

    fn lower_cutoff(&self) -> (r: Fp) {
        Fp::zero()
    }
}

impl ShortRangeFunction for Poisson {
    open spec fn srf_wf(&self) -> bool {
        &&& self.cutoff@ > 0
        &&& 1 <= self.order <= MAX_ORDER
        &&& self.coeffs@.len() == self.order + 1
        &&& self.dc1@.len() == self.order
        &&& self.dc2@.len() == self.order - 1
        &&& self.dc3@.len() == if self.order >= 2 { (self.order - 2) as int } else { 0int }
        &&& forall|j: int|
            0 <= j < self.coeffs@.len() ==> #[trigger] self.coeffs@[j]@ == pcoef(
                self.order as nat,
                j as nat,
            )
        &&& forall|j: int|
            0 <= j < self.dc1@.len() ==> #[trigger] self.dc1@[j]@ == d1coef(
                self.order as nat,
                j as nat,
            )
        &&& forall|j: int|
            0 <= j < self.dc2@.len() ==> #[trigger] self.dc2@[j]@ == d2coef(
                self.order as nat,
                j as nat,
            )
        &&& forall|j: int|
            0 <= j < self.dc3@.len() ==> #[trigger] self.dc3@[j]@ == d3coef(
                self.order as nat,
                j as nat,
            )
    }

    open spec fn f0_spec(&self, q: int) -> int {
        let w = fp_sub(ONE_RAW as int, q);
        fp_mul(fpow(w, (self.order + 1) as nat), poly_eval(self.coeffs@, q))
    }

    open spec fn f1_spec(&self, q: int) -> int {
        let w = fp_sub(ONE_RAW as int, q);
        let t0 = poly_eval(self.coeffs@, q);
        let t1 = poly_eval(self.dc1@, q);
        fp_mul(
            fpow(w, self.order as nat),
            fp_sub(fp_mul(w, t1), fp_mul((self.order + 1) * (ONE_RAW as int), t0)),
        )
    }

    open spec fn f2_spec(&self, q: int) -> int {
        let w = fp_sub(ONE_RAW as int, q);
        let k = self.order as int;
        let t0 = poly_eval(self.coeffs@, q);
        let t1 = poly_eval(self.dc1@, q);
        let t2 = poly_eval(self.dc2@, q);
        fp_mul(
            fpow(w, (self.order - 1) as nat),
            fp_add(
                fp_sub(
                    fp_mul(fp_mul(w, w), t2),
                    fp_mul((2 * k + 2) * (ONE_RAW as int), fp_mul(w, t1)),
                ),
                fp_mul((k * (k + 1)) * (ONE_RAW as int), t0),
            ),
        )
    }

    open spec fn f3_spec(&self, q: int) -> int {
        if self.order == 1 {
            TWELVE_RAW as int
        } else {
            let w = fp_sub(ONE_RAW as int, q);
            let k = self.order as int;
            let t0 = poly_eval(self.coeffs@, q);
            let t1 = poly_eval(self.dc1@, q);
            let t2 = poly_eval(self.dc2@, q);
            let t3 = poly_eval(self.dc3@, q);
            fp_mul(
                fpow(w, (self.order - 2) as nat),
                fp_sub(
                    fp_add(
                        fp_sub(
                            fp_mul(fp_mul(fp_mul(w, w), w), t3),
                            fp_mul((3 * k + 3) * (ONE_RAW as int), fp_mul(fp_mul(w, w), t2)),
                        ),
                        fp_mul((3 * k * (k + 1)) * (ONE_RAW as int), fp_mul(w, t1)),
                    ),
                    fp_mul(((k - 1) * k * (k + 1)) * (ONE_RAW as int), t0),
                ),
            )
        }
    }

    open spec fn kappa_spec(&self) -> Option<int> {
        None
    }

    open spec fn monopole_prefactor_spec(&self) -> Option<int> {
        None
    }

    open spec fn dipole_prefactor_spec(&self) -> Option<int> {
        None
    }

    fn short_range_f0(&self, q: Fp) -> (r: Fp) {
        let w: Fp = Fp::one().sub(q);
        fpow_exec(w, self.order + 1).mul(horner(&self.coeffs, q))
    }

    fn short_range_f1(&self, q: Fp) -> (r: Fp) {
        let w: Fp = Fp::one().sub(q);
        let t0: Fp = horner(&self.coeffs, q);
        let t1: Fp = horner(&self.dc1, q);
        let c: Fp = Fp::from_raw(((self.order + 1) as i64) * ONE_RAW);
        fpow_exec(w, self.order).mul(w.mul(t1).sub(c.mul(t0)))
    }

    fn short_range_f2(&self, q: Fp) -> (r: Fp) {
        let w: Fp = Fp::one().sub(q);
        let k: i64 = self.order as i64;
        proof {
            assert(2 <= k * (k + 1) <= 420) by (nonlinear_arith)
                requires
                    1 <= k <= 20,
            ;
        }
        let t0: Fp = horner(&self.coeffs, q);
        let t1: Fp = horner(&self.dc1, q);
        let t2: Fp = horner(&self.dc2, q);
        let c1: Fp = Fp::from_raw((2 * k + 2) * ONE_RAW);
        let c2: Fp = Fp::from_raw((k * (k + 1)) * ONE_RAW);
        fpow_exec(w, self.order - 1).mul(
            w.mul(w).mul(t2).sub(c1.mul(w.mul(t1))).add(c2.mul(t0)),
        )
    }

    fn short_range_f3(&self, q: Fp) -> (r: Fp) {
        if self.order == 1 {
            return Fp::from_raw(TWELVE_RAW);
        }
        let w: Fp = Fp::one().sub(q);
        let k: i64 = self.order as i64;
        proof {
            assert(6 <= k * (k + 1) <= 420) by (nonlinear_arith)
                requires
                    2 <= k <= 20,
            ;
            assert(6 <= 3 * k * (k + 1) <= 1260) by (nonlinear_arith)
                requires
                    2 <= k <= 20,
            ;
            assert(2 <= (k - 1) * k <= 380) by (nonlinear_arith)
                requires
                    2 <= k <= 20,
            ;
            assert(6 <= (k - 1) * k * (k + 1) <= 7980) by (nonlinear_arith)
                requires
                    2 <= k <= 20,
            ;
        }
        let t0: Fp = horner(&self.coeffs, q);
        let t1: Fp = horner(&self.dc1, q);
        let t2: Fp = horner(&self.dc2, q);
        let t3: Fp = horner(&self.dc3, q);
        let c1: Fp = Fp::from_raw((3 * k + 3) * ONE_RAW);
        let c2: Fp = Fp::from_raw((3 * k * (k + 1)) * ONE_RAW);
        let c3: Fp = Fp::from_raw(((k - 1) * k * (k + 1)) * ONE_RAW);
        fpow_exec(w, self.order - 2).mul(
            w.mul(w).mul(w).mul(t3).sub(c1.mul(w.mul(w).mul(t2))).add(c2.mul(w.mul(t1))).sub(
                c3.mul(t0),
            ),
        )
    }

    fn kappa(&self) -> (r: Option<Fp>) {
        None
    }

    fn self_energy_prefactors(&self) -> (r: SelfEnergyPrefactors) {
        SelfEnergyPrefactors { monopole: None, dipole: None }
    }
}

/// Consistency law: `S(0) = 1` exactly, since the constant coefficient of
/// `T` is one and `(1-0)^(k+1)` is exactly one.
pub proof fn lemma_poisson_consistency(s: &Poisson)
    requires
        s.srf_wf(),
    ensures
        s.f0_spec(0) == ONE_RAW as int,
{
    lemma_fpow_one((s.order + 1) as nat);
    let tail = s.coeffs@.subrange(1, s.coeffs@.len() as int);
    lemma_mul_zero(poly_eval(tail, 0));
    assert(s.coeffs@[0]@ == pcoef(s.order as nat, 0));
    lemma_mul_one(ONE_RAW as int);
}

/// Boundary law: both `S` and `S'` vanish exactly at the cutoff, because
/// every factored form keeps at least one power of `1 - q`.
pub proof fn lemma_poisson_boundary(s: &Poisson)
    requires
        s.srf_wf(),
    ensures
        s.f0_spec(ONE_RAW as int) == 0,
        s.f1_spec(ONE_RAW as int) == 0,
{
    lemma_fpow_zero((s.order + 1) as nat);
    lemma_fpow_zero(s.order as nat);
    lemma_mul_zero(poly_eval(s.coeffs@, ONE_RAW as int));
    let t0 = poly_eval(s.coeffs@, ONE_RAW as int);
    let t1 = poly_eval(s.dc1@, ONE_RAW as int);
    lemma_mul_zero(fp_sub(fp_mul(0, t1), fp_mul((s.order + 1) * (ONE_RAW as int), t0)));
}

} // verus!
