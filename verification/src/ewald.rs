//! Real-space Ewald interactions: complementary-error-function damping
//! with optional exponential (Debye) salt screening.
//!
//! The record derives the dimensionless damping strength `eta = alpha *
//! cutoff` and, when a Debye length is given, the reduced screening
//! parameter `zeta = cutoff / debye_length`.  Without screening the
//! switching function is `S(q) = erfc(eta q)`; with screening each
//! derivative splits into two complementary-error-function branches
//! weighted by `exp(2 zeta q)`.

use vstd::prelude::*;
use crate::fp::{
    Fp, fp_add, fp_sub, fp_neg, fp_mul, fp_div, ONE_RAW, TWO_RAW, HALF_RAW, FOUR_RAW, THREE_RAW,
    lemma_mul_zero, lemma_mul_one, lemma_mul_two, lemma_mul_nonneg, lemma_square_nonneg,
    lemma_div_nonneg,
};
use crate::math::{
    exp_pos, exp_neg, erfc, exp_pos_spec, exp_neg_spec, erfc_spec, SQRT_PI_RAW, EXP_TERMS,
    lemma_exp_zero, lemma_erfc_zero, lemma_erfc_pair, lemma_erfc_pos_bound,
};
use crate::cutoff::Cutoff;
use crate::shortrange::{opt_raw, SelfEnergyPrefactors, ShortRangeFunction};

verus! {

/// Scheme record for real-space Ewald interactions.
#[derive(Clone, Copy, Debug, PartialEq, Eq, Structural)]
pub struct RealSpaceEwald {
    /// Real-space cutoff distance.
    pub cutoff: Fp,
    /// Splitting parameter (inverse length).
    pub alpha: Fp,
    /// Reduced splitting parameter, `eta = alpha * cutoff` (dimensionless).
    pub eta: Fp,
    /// Reduced inverse Debye length, `zeta = cutoff / debye_length`
    /// (dimensionless); absent when there is no ionic screening.
    pub zeta: Option<Fp>,
}

/// `S(q)`: `erfc(eta q)`, or with screening
/// `(erfc(eta q + zeta/2eta) exp(2 zeta q) + erfc(eta q - zeta/2eta)) / 2`.
pub open spec fn ewald_f0(eta: int, zeta: Option<int>, q: int) -> int {
    match zeta {
        Some(z) => {
            let c1 = fp_div(z, fp_mul(TWO_RAW as int, eta));
            let eq = fp_mul(eta, q);
            let e2 = exp_pos_spec(fp_mul(fp_mul(TWO_RAW as int, z), q));
            fp_mul(
                HALF_RAW as int,
                fp_add(fp_mul(erfc_spec(fp_add(eq, c1)), e2), erfc_spec(fp_sub(eq, c1))),
            )
        },
        None => erfc_spec(fp_mul(eta, q)),
    }
}

/// `dS/dq`: `-(2 eta / sqrt(pi)) exp(-(eta q)^2)`, or with screening
/// `-(2 eta / sqrt(pi)) exp(-(eta q - zeta/2eta)^2)
///  + zeta erfc(eta q + zeta/2eta) exp(2 zeta q)`.
pub open spec fn ewald_f1(eta: int, zeta: Option<int>, q: int) -> int {
    let g = fp_div(fp_mul(TWO_RAW as int, eta), SQRT_PI_RAW as int);
    match zeta {
        Some(z) => {
            let c1 = fp_div(z, fp_mul(TWO_RAW as int, eta));
            let eq = fp_mul(eta, q);
            let d = fp_sub(eq, c1);
            let ec = exp_neg_spec(fp_mul(d, d));
            let er = erfc_spec(fp_add(eq, c1));
            let e2 = exp_pos_spec(fp_mul(fp_mul(TWO_RAW as int, z), q));
            fp_add(fp_neg(fp_mul(g, ec)), fp_mul(fp_mul(z, er), e2))
        },
        None => {
            let eq = fp_mul(eta, q);
            fp_neg(fp_mul(g, exp_neg_spec(fp_mul(eq, eq))))
        },
    }
}

/// `d2S/dq2`: `(4 eta^2 / sqrt(pi)) (eta q) exp(-(eta q)^2)`, or with
/// screening
/// `(4 eta^2 / sqrt(pi)) (eta q - zeta/eta) exp(-(eta q - zeta/2eta)^2)
///  + 2 zeta^2 erfc(eta q + zeta/2eta) exp(2 zeta q)`.
pub open spec fn ewald_f2(eta: int, zeta: Option<int>, q: int) -> int {
    let g = fp_div(fp_mul(FOUR_RAW as int, fp_mul(eta, eta)), SQRT_PI_RAW as int);
    match zeta {
        Some(z) => {
            let c1 = fp_div(z, fp_mul(TWO_RAW as int, eta));
            let c2 = fp_div(z, eta);
            let eq = fp_mul(eta, q);
            let d = fp_sub(eq, c1);
            let ec = exp_neg_spec(fp_mul(d, d));
            let er = erfc_spec(fp_add(eq, c1));
            let e2 = exp_pos_spec(fp_mul(fp_mul(TWO_RAW as int, z), q));
            fp_add(
                fp_mul(fp_mul(g, fp_sub(eq, c2)), ec),
                fp_mul(fp_mul(fp_mul(TWO_RAW as int, fp_mul(z, z)), er), e2),
            )
        },
        None => {
            let eq = fp_mul(eta, q);
            fp_mul(fp_mul(g, eq), exp_neg_spec(fp_mul(eq, eq)))
        },
    }
}

/// `d3S/dq3`: `(4 eta^3 / sqrt(pi)) (1 - 2 (eta q)^2) exp(-(eta q)^2)`, or
/// with screening
/// `(4 eta^3 / sqrt(pi))
///    (1 - 2 (eta q - zeta/eta)(eta q - zeta/2eta) - (zeta/eta)^2)
///    exp(-(eta q - zeta/2eta)^2)
///  + 4 zeta^3 erfc(eta q + zeta/2eta) exp(2 zeta q)`.
pub open spec fn ewald_f3(eta: int, zeta: Option<int>, q: int) -> int {
    let eta3 = fp_mul(fp_mul(eta, eta), eta);
    let g = fp_div(fp_mul(FOUR_RAW as int, eta3), SQRT_PI_RAW as int);
    match zeta {
        Some(z) => {
            let c1 = fp_div(z, fp_mul(TWO_RAW as int, eta));
            let c2 = fp_div(z, eta);
            let eq = fp_mul(eta, q);
            let d = fp_sub(eq, c1);
            let ec = exp_neg_spec(fp_mul(d, d));
            let er = erfc_spec(fp_add(eq, c1));
            let e2 = exp_pos_spec(fp_mul(fp_mul(TWO_RAW as int, z), q));
            let inner = fp_sub(
                fp_sub(ONE_RAW as int, fp_mul(TWO_RAW as int, fp_mul(fp_sub(eq, c2), d))),
                fp_mul(c2, c2),
            );
            let z3 = fp_mul(fp_mul(z, z), z);
            fp_add(fp_mul(fp_mul(g, inner), ec), fp_mul(fp_mul(fp_mul(FOUR_RAW as int, z3), er), e2))
        },
        None => {
            let eq = fp_mul(eta, q);
            fp_mul(
                fp_mul(g, fp_sub(ONE_RAW as int, fp_mul(TWO_RAW as int, fp_mul(eq, eq)))),
                exp_neg_spec(fp_mul(eq, eq)),
            )
        },
    }
}

/// Monopole self-energy prefactor:
/// `-(eta / sqrt(pi)) (exp(-zeta^2/4eta^2)
///   - sqrt(pi) (zeta/2eta) erfc(zeta/2eta))`,
/// which reduces to `-eta / sqrt(pi)` without screening.
pub open spec fn ewald_monopole_prefactor(eta: int, zeta: Option<int>) -> int {
    match zeta {
        Some(z) => {
            let c1 = fp_div(z, fp_mul(TWO_RAW as int, eta));
            let e = exp_neg_spec(fp_mul(c1, c1));
            let er = erfc_spec(c1);
            fp_mul(
                fp_neg(fp_div(eta, SQRT_PI_RAW as int)),
                fp_sub(e, fp_mul(fp_mul(SQRT_PI_RAW as int, c1), er)),
            )
        },
        None => fp_neg(fp_div(eta, SQRT_PI_RAW as int)),
    }
}

/// Dipole self-energy prefactor:
/// `-(2 eta^3 / 3 sqrt(pi)) (sqrt(pi) 2 (zeta/2eta)^3 erfc(zeta/2eta)
///   + (1 - 2 (zeta/2eta)^2) exp(-zeta^2/4eta^2))`,
/// which reduces to `-2 eta^3 / (3 sqrt(pi))` without screening.
pub open spec fn ewald_dipole_prefactor(eta: int, zeta: Option<int>) -> int {
    let eta3 = fp_mul(fp_mul(eta, eta), eta);
    let coef = fp_neg(fp_div(fp_mul(TWO_RAW as int, eta3), fp_mul(THREE_RAW as int, SQRT_PI_RAW as int)));
    match zeta {
        Some(z) => {
            let c1 = fp_div(z, fp_mul(TWO_RAW as int, eta));
            let x = fp_mul(c1, c1);
            let e = exp_neg_spec(x);
            let er = erfc_spec(c1);
            let t1 = fp_mul(fp_mul(SQRT_PI_RAW as int, fp_mul(TWO_RAW as int, fp_mul(x, c1))), er);
            let t2 = fp_mul(fp_sub(ONE_RAW as int, fp_mul(TWO_RAW as int, x)), e);
            fp_mul(coef, fp_add(t1, t2))
        },
        None => coef,
    }
}

impl RealSpaceEwald {
    /// A new Ewald scheme with the given cutoff, splitting parameter and
    /// optional Debye length (same unit of length as the cutoff).  The
    /// reduced parameters must stay representable and non-zero.
    pub fn new(cutoff: Fp, alpha: Fp, debye_length: Option<Fp>) -> (s: RealSpaceEwald)
        requires
            cutoff@ > 0,
            alpha@ > 0,
            fp_mul(alpha@, cutoff@) > 0,
            match debye_length {
                Some(d) => d@ > 0,
                None => true,
            },
        ensures
            s.srf_wf(),
            s.cutoff@ == cutoff@,
            s.alpha@ == alpha@,
            s.eta@ == fp_mul(alpha@, cutoff@),
            opt_raw(s.zeta) == match debye_length {
                Some(d) => Some(fp_div(cutoff@, d@)),
                None => None::<int>,
            },
    {
        let zeta: Option<Fp> = match debye_length {
            Some(d) => {
                proof {
                    lemma_div_nonneg(cutoff@, d@);
                }
                Some(cutoff.div(d))
            },
            None => None,
        };
        RealSpaceEwald { cutoff, alpha, eta: alpha.mul(cutoff), zeta }
    }

    /// A salt-free Ewald scheme with the given cutoff and splitting
    /// parameter.
    pub fn new_without_salt(cutoff: Fp, alpha: Fp) -> (s: RealSpaceEwald)
        requires
            cutoff@ > 0,
            alpha@ > 0,
            fp_mul(alpha@, cutoff@) > 0,
        ensures
            s.srf_wf(),
            s.cutoff@ == cutoff@,
            s.alpha@ == alpha@,
            s.eta@ == fp_mul(alpha@, cutoff@),
            opt_raw(s.zeta) == None::<int>,
    {
        RealSpaceEwald::new(cutoff, alpha, None)
    }
}

impl Cutoff for RealSpaceEwald {
    open spec fn cutoff_spec(&self) -> int {
        self.cutoff@
    }

    open spec fn lower_cutoff_spec(&self) -> int {
        0
    }

    fn cutoff(&self) -> (r: Fp) {
        self.cutoff
    }

    fn cutoff_squared(&self) -> (r: Fp) {
        self.cutoff.mul(self.cutoff)
    }

    fn lower_cutoff(&self) -> (r: Fp) {
        Fp::zero()
    }
}

impl ShortRangeFunction for RealSpaceEwald {
    open spec fn srf_wf(&self) -> bool {
        &&& self.cutoff@ > 0
        &&& self.eta@ > 0
        &&& match self.zeta {
            Some(z) => z@ >= 0,
            None => true,
        }
    }

    open spec fn f0_spec(&self, q: int) -> int {
        ewald_f0(self.eta@, opt_raw(self.zeta), q)
    }

    open spec fn f1_spec(&self, q: int) -> int {
        ewald_f1(self.eta@, opt_raw(self.zeta), q)
    }

    open spec fn f2_spec(&self, q: int) -> int {
        ewald_f2(self.eta@, opt_raw(self.zeta), q)
    }

    open spec fn f3_spec(&self, q: int) -> int {
        ewald_f3(self.eta@, opt_raw(self.zeta), q)
    }

    open spec fn kappa_spec(&self) -> Option<int> {
        match self.zeta {
            Some(z) => Some(fp_div(z@, self.cutoff@)),
            None => None,
        }
    }

    open spec fn monopole_prefactor_spec(&self) -> Option<int> {
        Some(ewald_monopole_prefactor(self.eta@, opt_raw(self.zeta)))
    }

    open spec fn dipole_prefactor_spec(&self) -> Option<int> {
        Some(ewald_dipole_prefactor(self.eta@, opt_raw(self.zeta)))
    }

    fn short_range_f0(&self, q: Fp) -> (r: Fp) {
        match self.zeta {
            Some(z) => {
                proof {
                    lemma_mul_two(self.eta@);
                    lemma_mul_two(z@);
                    lemma_mul_nonneg(fp_mul(TWO_RAW as int, z@), q@);
                }
                let two: Fp = Fp::from_raw(TWO_RAW);
                let c1: Fp = z.div(two.mul(self.eta));
                let eq: Fp = self.eta.mul(q);
                let e2: Fp = exp_pos(two.mul(z).mul(q));
                let ea: Fp = erfc(eq.add(c1));
                let eb: Fp = erfc(eq.sub(c1));
                Fp::from_raw(HALF_RAW).mul(ea.mul(e2).add(eb))
            },
            None => erfc(self.eta.mul(q)),
        }
    }

    fn short_range_f1(&self, q: Fp) -> (r: Fp) {
        let two: Fp = Fp::from_raw(TWO_RAW);
        let g: Fp = two.mul(self.eta).div(Fp::from_raw(SQRT_PI_RAW));
        match self.zeta {
            Some(z) => {
                proof {
                    lemma_mul_two(self.eta@);
                    lemma_mul_two(z@);
                    lemma_mul_nonneg(fp_mul(TWO_RAW as int, z@), q@);
                }
                let c1: Fp = z.div(two.mul(self.eta));
                let eq: Fp = self.eta.mul(q);
                let d: Fp = eq.sub(c1);
                proof {
                    lemma_square_nonneg(d@);
                }
                let ec: Fp = exp_neg(d.mul(d));
                let er: Fp = erfc(eq.add(c1));
                let e2: Fp = exp_pos(two.mul(z).mul(q));
                g.mul(ec).neg().add(z.mul(er).mul(e2))
            },
            None => {
                let eq: Fp = self.eta.mul(q);
                proof {
                    lemma_square_nonneg(eq@);
                }
                g.mul(exp_neg(eq.mul(eq))).neg()
            },
        }
    }

    fn short_range_f2(&self, q: Fp) -> (r: Fp) {
        let two: Fp = Fp::from_raw(TWO_RAW);
        let g: Fp = Fp::from_raw(FOUR_RAW).mul(self.eta.mul(self.eta)).div(Fp::from_raw(SQRT_PI_RAW));
        match self.zeta {
            Some(z) => {
                proof {
                    lemma_mul_two(self.eta@);
                    lemma_mul_two(z@);
                    lemma_mul_nonneg(fp_mul(TWO_RAW as int, z@), q@);
                }
                let c1: Fp = z.div(two.mul(self.eta));
                let c2: Fp = z.div(self.eta);
                let eq: Fp = self.eta.mul(q);
                let d: Fp = eq.sub(c1);
                proof {
                    lemma_square_nonneg(d@);
                }
                let ec: Fp = exp_neg(d.mul(d));
                let er: Fp = erfc(eq.add(c1));
                let e2: Fp = exp_pos(two.mul(z).mul(q));
                g.mul(eq.sub(c2)).mul(ec).add(two.mul(z.mul(z)).mul(er).mul(e2))
            },
            None => {
                let eq: Fp = self.eta.mul(q);
                proof {
                    lemma_square_nonneg(eq@);
                }
                g.mul(eq).mul(exp_neg(eq.mul(eq)))
            },
        }
    }

    fn short_range_f3(&self, q: Fp) -> (r: Fp) {
        let two: Fp = Fp::from_raw(TWO_RAW);
        let eta3: Fp = self.eta.mul(self.eta).mul(self.eta);
        let g: Fp = Fp::from_raw(FOUR_RAW).mul(eta3).div(Fp::from_raw(SQRT_PI_RAW));
        match self.zeta {
            Some(z) => {
                proof {
                    lemma_mul_two(self.eta@);
                    lemma_mul_two(z@);
                    lemma_mul_nonneg(fp_mul(TWO_RAW as int, z@), q@);
                }
                let c1: Fp = z.div(two.mul(self.eta));
                let c2: Fp = z.div(self.eta);
                let eq: Fp = self.eta.mul(q);
                let d: Fp = eq.sub(c1);
                proof {
                    lemma_square_nonneg(d@);
                }
                let ec: Fp = exp_neg(d.mul(d));
                let er: Fp = erfc(eq.add(c1));
                let e2: Fp = exp_pos(two.mul(z).mul(q));
                let inner: Fp = Fp::one().sub(two.mul(eq.sub(c2).mul(d))).sub(c2.mul(c2));
                let z3: Fp = z.mul(z).mul(z);
                g.mul(inner).mul(ec).add(Fp::from_raw(FOUR_RAW).mul(z3).mul(er).mul(e2))
            },
            None => {
                let eq: Fp = self.eta.mul(q);
                proof {
                    lemma_square_nonneg(eq@);
                }
                g.mul(Fp::one().sub(two.mul(eq.mul(eq)))).mul(exp_neg(eq.mul(eq)))
            },
        }
    }

    fn kappa(&self) -> (r: Option<Fp>) {
        match self.zeta {
            Some(z) => Some(z.div(self.cutoff)),
            None => None,
        }
    }

    fn self_energy_prefactors(&self) -> (r: SelfEnergyPrefactors) {
        let two: Fp = Fp::from_raw(TWO_RAW);
        let sqrt_pi: Fp = Fp::from_raw(SQRT_PI_RAW);
        let eta3: Fp = self.eta.mul(self.eta).mul(self.eta);
        proof {
            vstd::arithmetic::div_mod::lemma_div_by_multiple(3 * (SQRT_PI_RAW as int), crate::fp::SCALE as int);
            assert((3 * (SQRT_PI_RAW as int)) * (crate::fp::SCALE as int) == (crate::fp::SCALE as int) * (3 * (SQRT_PI_RAW as int))) by (nonlinear_arith);
            assert((THREE_RAW as int) * (SQRT_PI_RAW as int) == (3 * (SQRT_PI_RAW as int)) * (crate::fp::SCALE as int)) by (nonlinear_arith);
            assert(fp_mul(THREE_RAW as int, SQRT_PI_RAW as int) == 3 * (SQRT_PI_RAW as int));
        }
        let coef: Fp = two.mul(eta3).div(Fp::from_raw(THREE_RAW).mul(sqrt_pi)).neg();
        match self.zeta {
            Some(z) => {
                proof {
                    lemma_mul_two(self.eta@);
                }
                let c1: Fp = z.div(two.mul(self.eta));
                let x: Fp = c1.mul(c1);
                proof {
                    lemma_square_nonneg(c1@);
                }
                let e: Fp = exp_neg(x);
                let er: Fp = erfc(c1);
                let monopole: Fp = self.eta.div(sqrt_pi).neg().mul(e.sub(sqrt_pi.mul(c1).mul(er)));
                let t1: Fp = sqrt_pi.mul(two.mul(x.mul(c1))).mul(er);
                let t2: Fp = Fp::one().sub(two.mul(x)).mul(e);
                let dipole: Fp = coef.mul(t1.add(t2));
                SelfEnergyPrefactors { monopole: Some(monopole), dipole: Some(dipole) }
            },
            None => {
                SelfEnergyPrefactors {
                    monopole: Some(self.eta.div(sqrt_pi).neg()),
                    dipole: Some(coef),
                }
            },
        }
    }
}

/// Consistency law: `S(0) = 1` exactly, with or without screening.  The
/// screened case rests on the exact branch identity
/// `erfc(c) + erfc(-c) = 2` and on `exp(0) = 1`.
pub proof fn lemma_ewald_consistency(s: &RealSpaceEwald)
    requires
        s.srf_wf(),
    ensures
        s.f0_spec(0) == ONE_RAW as int,
{
    match s.zeta {
        Some(z) => {
            let c1 = fp_div(z@, fp_mul(TWO_RAW as int, s.eta@));
            lemma_mul_two(s.eta@);
            lemma_div_nonneg(z@, fp_mul(TWO_RAW as int, s.eta@));
            lemma_mul_zero(s.eta@);
            lemma_mul_zero(fp_mul(TWO_RAW as int, z@));
            lemma_exp_zero();
            lemma_erfc_pos_bound(c1);
            lemma_mul_one(erfc_spec(c1));
            lemma_erfc_pair(c1);
            assert(fp_add(0, c1) == c1);
            assert(fp_sub(0, c1) == fp_neg(c1));
            assert(fp_mul(HALF_RAW as int, TWO_RAW as int) == ONE_RAW as int);
        },
        None => {
            lemma_mul_zero(s.eta@);
            lemma_erfc_zero();
        },
    }
}

} // verus!
