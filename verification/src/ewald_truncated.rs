//! Ewald damping windowed to the cutoff: the complementary-error-function
//! kernel minus its first-order Taylor expansion about `q = 1`, normalized
//! to one at contact.  By construction both `S` and `S'` vanish at the
//! cutoff (smooth decay to zero), while `S(0) = 1` exactly.
//!
//! With `E(q) = erfc(eta q)` and `c = (2 eta / sqrt(pi)) exp(-eta^2)` the
//! scheme is `S(q) = (E(q) - E(1) + c (q - 1)) / (E(0) - E(1) - c)`; the
//! derivatives are those of `E` alone, divided by the same normalization.

use vstd::prelude::*;
use crate::fp::{
    Fp, fp_add, fp_sub, fp_neg, fp_mul, fp_div, ONE_RAW, TWO_RAW, HALF_RAW, FOUR_RAW,
    lemma_mul_zero, lemma_mul_one, lemma_square_nonneg,
};
use crate::math::{
    exp_neg, erfc, exp_neg_spec, erfc_spec, SQRT_PI_RAW, lemma_erfc_zero,
};
use crate::cutoff::Cutoff;
use crate::shortrange::{SelfEnergyPrefactors, ShortRangeFunction};
use vstd::arithmetic::div_mod::lemma_div_of0;

verus! {

/// Scheme record for truncated real-space Ewald interactions.
#[derive(Clone, Copy, Debug, PartialEq, Eq, Structural)]
pub struct TruncatedEwald {
    /// Real-space cutoff distance.
    pub cutoff: Fp,
    /// Splitting parameter (inverse length).
    pub alpha: Fp,
    /// Reduced splitting parameter, `eta = alpha * cutoff`.
    pub eta: Fp,
    /// Boundary slope `c = (2 eta / sqrt(pi)) exp(-eta^2)`.
    pub slope: Fp,
    /// `erfc(eta)`: the kernel value at the cutoff.
    pub erfc_eta: Fp,
    /// Normalization `1 - erfc(eta) - c`, positive for a well-formed record.
    pub denom: Fp,
}

/// The boundary slope `(2 eta / sqrt(pi)) exp(-eta^2)`.
pub open spec fn trunc_slope(eta: int) -> int {
    fp_mul(fp_div(fp_mul(TWO_RAW as int, eta), SQRT_PI_RAW as int), exp_neg_spec(fp_mul(eta, eta)))
}

impl TruncatedEwald {
    /// A new truncated Ewald scheme with the given cutoff and splitting
    /// parameter.  Returns `None` exactly when the normalization
    /// `1 - erfc(eta) - c` is not positive (a damping too weak to window).
    pub fn new(cutoff: Fp, alpha: Fp) -> (r: Option<TruncatedEwald>)
        requires
            cutoff@ > 0,
            alpha@ > 0,
            fp_mul(alpha@, cutoff@) > 0,
        ensures
            match r {
                Some(s) => {
                    &&& s.srf_wf()
                    &&& s.cutoff@ == cutoff@
                    &&& s.alpha@ == alpha@
                    &&& s.eta@ == fp_mul(alpha@, cutoff@)
                },
                None => fp_sub(
                    fp_sub(ONE_RAW as int, erfc_spec(fp_mul(alpha@, cutoff@))),
                    trunc_slope(fp_mul(alpha@, cutoff@)),
                ) <= 0,
            },
    {
        let eta: Fp = alpha.mul(cutoff);
        proof {
            lemma_square_nonneg(eta@);
        }
        let slope: Fp = Fp::from_raw(TWO_RAW).mul(eta).div(Fp::from_raw(SQRT_PI_RAW)).mul(
            exp_neg(eta.mul(eta)),
        );
        let erfc_eta: Fp = erfc(eta);
        let denom: Fp = Fp::one().sub(erfc_eta).sub(slope);
        if denom.raw > 0 {
            Some(TruncatedEwald { cutoff, alpha, eta, slope, erfc_eta, denom })
        } else {
            None
        }
    }
}

impl Cutoff for TruncatedEwald {
    open spec fn cutoff_spec(&self) -> int {
        self.cutoff@
    }

    open spec fn lower_cutoff_spec(&self) -> int {
        0
    }

    fn cutoff(&self) -> (r: Fp) {
        self.cutoff
    }

    fn cutoff_squared(&self) -> (r: Fp) {
        self.cutoff.mul(self.cutoff)
    }

    fn lower_cutoff(&self) -> (r: Fp) {
        Fp::zero()
    }
}

impl ShortRangeFunction for TruncatedEwald {
    open spec fn srf_wf(&self) -> bool {
        &&& self.cutoff@ > 0
        &&& self.eta@ > 0
        &&& self.slope@ == trunc_slope(self.eta@)
        &&& self.erfc_eta@ == erfc_spec(self.eta@)
        &&& self.denom@ == fp_sub(fp_sub(ONE_RAW as int, self.erfc_eta@), self.slope@)
        &&& self.denom@ > 0
    }

    open spec fn f0_spec(&self, q: int) -> int {
        fp_div(
            fp_add(
                fp_sub(erfc_spec(fp_mul(self.eta@, q)), self.erfc_eta@),
                fp_mul(self.slope@, fp_sub(q, ONE_RAW as int)),
            ),
            self.denom@,
        )
    }

    open spec fn f1_spec(&self, q: int) -> int {
        let eq = fp_mul(self.eta@, q);
        let g = fp_div(fp_mul(TWO_RAW as int, self.eta@), SQRT_PI_RAW as int);
        fp_div(fp_add(fp_neg(fp_mul(g, exp_neg_spec(fp_mul(eq, eq)))), self.slope@), self.denom@)
    }

    open spec fn f2_spec(&self, q: int) -> int {
        let eq = fp_mul(self.eta@, q);
        let g = fp_div(fp_mul(FOUR_RAW as int, fp_mul(self.eta@, self.eta@)), SQRT_PI_RAW as int);
        fp_div(fp_mul(fp_mul(g, eq), exp_neg_spec(fp_mul(eq, eq))), self.denom@)
    }

    open spec fn f3_spec(&self, q: int) -> int {
        let eq = fp_mul(self.eta@, q);
        let eta3 = fp_mul(fp_mul(self.eta@, self.eta@), self.eta@);
        let g = fp_div(fp_mul(FOUR_RAW as int, eta3), SQRT_PI_RAW as int);
        fp_div(
            fp_mul(
                fp_mul(g, fp_sub(ONE_RAW as int, fp_mul(TWO_RAW as int, fp_mul(eq, eq)))),
                exp_neg_spec(fp_mul(eq, eq)),
            ),
            self.denom@,
        )
    }

    open spec fn kappa_spec(&self) -> Option<int> {
        None
    }

    open spec fn monopole_prefactor_spec(&self) -> Option<int> {
        Some(fp_mul(HALF_RAW as int, self.f1_spec(0)))
    }

    open spec fn dipole_prefactor_spec(&self) -> Option<int> {
        None
    }

    fn short_range_f0(&self, q: Fp) -> (r: Fp) {
        let num: Fp = erfc(self.eta.mul(q)).sub(self.erfc_eta).add(
            self.slope.mul(q.sub(Fp::one())),
        );
        num.div(self.denom)
    }

    fn short_range_f1(&self, q: Fp) -> (r: Fp) {
        let eq: Fp = self.eta.mul(q);
        let g: Fp = Fp::from_raw(TWO_RAW).mul(self.eta).div(Fp::from_raw(SQRT_PI_RAW));
        proof {
            lemma_square_nonneg(eq@);
        }
        g.mul(exp_neg(eq.mul(eq))).neg().add(self.slope).div(self.denom)
    }

    fn short_range_f2(&self, q: Fp) -> (r: Fp) {
        let eq: Fp = self.eta.mul(q);
        let g: Fp = Fp::from_raw(FOUR_RAW).mul(self.eta.mul(self.eta)).div(Fp::from_raw(SQRT_PI_RAW));
        proof {
            lemma_square_nonneg(eq@);
        }
        g.mul(eq).mul(exp_neg(eq.mul(eq))).div(self.denom)
    }

    fn short_range_f3(&self, q: Fp) -> (r: Fp) {
        let eq: Fp = self.eta.mul(q);
        let eta3: Fp = self.eta.mul(self.eta).mul(self.eta);
        let g: Fp = Fp::from_raw(FOUR_RAW).mul(eta3).div(Fp::from_raw(SQRT_PI_RAW));
        proof {
            lemma_square_nonneg(eq@);
        }
        g.mul(Fp::one().sub(Fp::from_raw(TWO_RAW).mul(eq.mul(eq)))).mul(exp_neg(eq.mul(eq))).div(
            self.denom,
        )
    }

    fn kappa(&self) -> (r: Option<Fp>) {
        None
    }

    fn self_energy_prefactors(&self) -> (r: SelfEnergyPrefactors) {
        let d1: Fp = self.short_range_f1(Fp::zero());
        proof {
            lemma_mul_zero(self.eta@);
        }
        SelfEnergyPrefactors {
            monopole: Some(Fp::from_raw(HALF_RAW).mul(d1)),
            dipole: None,
        }
    }
}

/// Consistency law: `S(0) = 1` exactly; the numerator at contact is the
/// normalization itself.
pub proof fn lemma_truncated_consistency(s: &TruncatedEwald)
    requires
        s.srf_wf(),
    ensures
        s.f0_spec(0) == ONE_RAW as int,
{
    lemma_mul_zero(s.eta@);
    lemma_erfc_zero();
    lemma_mul_one(s.slope@);
    crate::fp::lemma_div_self(s.denom@);
}

/// Boundary law: both `S` and `S'` vanish exactly at the cutoff.
pub proof fn lemma_truncated_boundary(s: &TruncatedEwald)
    requires
        s.srf_wf(),
    ensures
        s.f0_spec(ONE_RAW as int) == 0,
        s.f1_spec(ONE_RAW as int) == 0,
{
    lemma_mul_one(s.eta@);
    lemma_mul_zero(s.slope@);
    lemma_div_of0(s.denom@);
    let g = fp_div(fp_mul(TWO_RAW as int, s.eta@), SQRT_PI_RAW as int);
    let ec = exp_neg_spec(fp_mul(s.eta@, s.eta@));
    assert(fp_add(fp_neg(fp_mul(g, ec)), s.slope@) == 0);
}

} // verus!
