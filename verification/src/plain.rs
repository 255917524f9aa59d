//! The undamped reference scheme: `S(q) = 1` everywhere.

use vstd::prelude::*;
use crate::fp::{Fp, ONE_RAW, RAW_MAX};
use crate::cutoff::Cutoff;
use crate::shortrange::{SelfEnergyPrefactors, ShortRangeFunction};

verus! {

/// The bare Coulomb scheme: no damping, no screening and no truncation.
/// Its cutoff is the largest representable length, so no separation is
/// ever beyond it.
#[derive(Clone, Copy, Debug, PartialEq, Eq, Structural)]
pub struct Plain {
    /// Upper interaction radius (the largest representable length).
    pub cutoff: Fp,
}

impl Plain {
    /// The undamped scheme.
    pub fn new() -> (s: Plain)
        ensures
            s.srf_wf(),
            s.cutoff_spec() == RAW_MAX as int,
    {
        Plain { cutoff: Fp::from_raw(RAW_MAX) }
    }
}

impl Cutoff for Plain {
    open spec fn cutoff_spec(&self) -> int {
        self.cutoff@
    }

    open spec fn lower_cutoff_spec(&self) -> int {
        0
    }

    fn cutoff(&self) -> (r: Fp) {
        self.cutoff
    }

    fn cutoff_squared(&self) -> (r: Fp) {
        self.cutoff.mul(self.cutoff)
    }

    fn lower_cutoff(&self) -> (r: Fp) {
        Fp::zero()
    }
}

impl ShortRangeFunction for Plain {
    open spec fn srf_wf(&self) -> bool {
        self.cutoff@ == RAW_MAX as int
    }

    open spec fn f0_spec(&self, q: int) -> int {
        ONE_RAW as int
    }

    open spec fn f1_spec(&self, q: int) -> int {
        0
    }

    open spec fn f2_spec(&self, q: int) -> int {
        0
    }

    open spec fn f3_spec(&self, q: int) -> int {
        0
    }

    open spec fn kappa_spec(&self) -> Option<int> {
        None
    }

    open spec fn monopole_prefactor_spec(&self) -> Option<int> {
        None
    }

    open spec fn dipole_prefactor_spec(&self) -> Option<int> {
        None
    }

    fn short_range_f0(&self, q: Fp) -> (r: Fp) {
        Fp::one()
    }

    fn short_range_f1(&self, q: Fp) -> (r: Fp) {
        Fp::zero()
    }

    fn short_range_f2(&self, q: Fp) -> (r: Fp) {
        Fp::zero()
    }

    fn short_range_f3(&self, q: Fp) -> (r: Fp) {
        Fp::zero()
    }

    fn kappa(&self) -> (r: Option<Fp>) {
        None
    }

    fn self_energy_prefactors(&self) -> (r: SelfEnergyPrefactors) {
        SelfEnergyPrefactors { monopole: None, dipole: None }
    }
}

/// Consistency law for the undamped scheme: `S(0) = 1` exactly.
pub proof fn lemma_plain_consistency(s: &Plain)
    ensures
        s.f0_spec(0) == ONE_RAW as int,
{
}

} // verus!
