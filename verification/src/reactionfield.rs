//! Reaction-field scheme: a dielectric-continuum correction that depends
//! on the permittivity ratio between the surrounding continuum and the
//! inner region, optionally shifted so the potential vanishes at the
//! cutoff.
//!
//! With `kappa_rf = (eps_out - eps_in) / (2 eps_out + eps_in)` the
//! switching function is `S(q) = 1 + kappa_rf q^3`, minus
//! `(1 + kappa_rf) q` when shifted.  It has no relation to Debye
//! screening.

use vstd::prelude::*;
use crate::fp::{
    Fp, fp_add, fp_sub, fp_neg, fp_mul, fp_div, ONE_RAW, TWO_RAW, HALF_RAW, THREE_RAW,
    lemma_mul_zero, lemma_mul_two,
};
use crate::cutoff::Cutoff;
use crate::shortrange::{SelfEnergyPrefactors, ShortRangeFunction};

verus! {

/// Raw value of the number six.
pub const SIX_RAW: i64 = 422212465065984;

/// The reaction-field coefficient
/// `(eps_out - eps_in) / (2 eps_out + eps_in)`.
pub open spec fn rf_coef(eps_out: int, eps_in: int) -> int {
    fp_div(fp_sub(eps_out, eps_in), fp_add(fp_mul(TWO_RAW as int, eps_out), eps_in))
}

/// Scheme record for the reaction-field correction.
#[derive(Clone, Copy, Debug, PartialEq, Eq, Structural)]
pub struct ReactionField {
    /// Interaction cutoff distance.
    pub cutoff: Fp,
    /// Relative permittivity of the surrounding continuum.
    pub epsr_out: Fp,
    /// Relative permittivity inside the cutoff sphere.
    pub epsr_in: Fp,
    /// Whether the potential is shifted to vanish at the cutoff.
    pub shifted: bool,
    /// The derived reaction-field coefficient.
    pub coef: Fp,
}

impl ReactionField {
    /// A new reaction-field scheme from the cutoff, the two relative
    /// permittivities (both at least one) and the shift flag.
    pub fn new(cutoff: Fp, epsr_out: Fp, epsr_in: Fp, shifted: bool) -> (s: ReactionField)
        requires
            cutoff@ > 0,
            epsr_out@ > 0,
            epsr_in@ > 0,
        ensures
            s.srf_wf(),
            s.cutoff@ == cutoff@,
            s.epsr_out@ == epsr_out@,
            s.epsr_in@ == epsr_in@,
            s.shifted == shifted,
            s.coef@ == rf_coef(epsr_out@, epsr_in@),
    {
        proof {
            lemma_mul_two(epsr_out@);
        }
        let denom: Fp = Fp::from_raw(TWO_RAW).mul(epsr_out).add(epsr_in);
        let coef: Fp = epsr_out.sub(epsr_in).div(denom);
        ReactionField { cutoff, epsr_out, epsr_in, shifted, coef }
    }
}

impl Cutoff for ReactionField {
    open spec fn cutoff_spec(&self) -> int {
        self.cutoff@
    }

    open spec fn lower_cutoff_spec(&self) -> int {
        0
    }

    fn cutoff(&self) -> (r: Fp) {
        self.cutoff
    }

    fn cutoff_squared(&self) -> (r: Fp) {
        self.cutoff.mul(self.cutoff)
    }

    fn lower_cutoff(&self) -> (r: Fp) {
        Fp::zero()
    }
}

impl ShortRangeFunction for ReactionField {
    open spec fn srf_wf(&self) -> bool {
        &&& self.cutoff@ > 0
        &&& self.epsr_out@ > 0
        &&& self.epsr_in@ > 0
        &&& self.coef@ == rf_coef(self.epsr_out@, self.epsr_in@)
    }

    open spec fn f0_spec(&self, q: int) -> int {
        let base = fp_add(ONE_RAW as int, fp_mul(self.coef@, fp_mul(fp_mul(q, q), q)));
        if self.shifted {
            fp_sub(base, fp_mul(fp_add(ONE_RAW as int, self.coef@), q))
        } else {
            base
        }
    }

    open spec fn f1_spec(&self, q: int) -> int {
        let base = fp_mul(fp_mul(THREE_RAW as int, self.coef@), fp_mul(q, q));
        if self.shifted {
            fp_sub(base, fp_add(ONE_RAW as int, self.coef@))
        } else {
            base
        }
    }

    open spec fn f2_spec(&self, q: int) -> int {
        fp_mul(fp_mul(SIX_RAW as int, self.coef@), q)
    }

    open spec fn f3_spec(&self, q: int) -> int {
        fp_mul(SIX_RAW as int, self.coef@)
    }

    open spec fn kappa_spec(&self) -> Option<int> {
        None
    }

    open spec fn monopole_prefactor_spec(&self) -> Option<int> {
        if self.shifted {
            Some(fp_neg(fp_mul(HALF_RAW as int, fp_add(ONE_RAW as int, self.coef@))))
        } else {
            None
        }
    }

    open spec fn dipole_prefactor_spec(&self) -> Option<int> {
        None
    }

    fn short_range_f0(&self, q: Fp) -> (r: Fp) {
        let base: Fp = Fp::one().add(self.coef.mul(q.mul(q).mul(q)));
        if self.shifted {
            base.sub(Fp::one().add(self.coef).mul(q))
        } else {
            base
        }
    }

    fn short_range_f1(&self, q: Fp) -> (r: Fp) {
        let base: Fp = Fp::from_raw(THREE_RAW).mul(self.coef).mul(q.mul(q));
        if self.shifted {
            base.sub(Fp::one().add(self.coef))
        } else {
            base
        }
    }

    fn short_range_f2(&self, q: Fp) -> (r: Fp) {
        Fp::from_raw(SIX_RAW).mul(self.coef).mul(q)
    }

    fn short_range_f3(&self, q: Fp) -> (r: Fp) {
        Fp::from_raw(SIX_RAW).mul(self.coef)
    }

    fn kappa(&self) -> (r: Option<Fp>) {
        None
    }

    fn self_energy_prefactors(&self) -> (r: SelfEnergyPrefactors) {
        if self.shifted {
            SelfEnergyPrefactors {
                monopole: Some(Fp::from_raw(HALF_RAW).mul(Fp::one().add(self.coef)).neg()),
                dipole: None,
            }
        } else {
            SelfEnergyPrefactors { monopole: None, dipole: None }
        }
    }
}

/// Consistency law: `S(0) = 1` exactly, shifted or not.
pub proof fn lemma_reactionfield_consistency(s: &ReactionField)
    requires
        s.srf_wf(),
    ensures
        s.f0_spec(0) == ONE_RAW as int,
{
    lemma_mul_zero(0);
    lemma_mul_zero(s.coef@);
    lemma_mul_zero(fp_add(ONE_RAW as int, s.coef@));
}

} // verus!
