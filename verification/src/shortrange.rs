//! The short-range function interface every scheme satisfies.

use vstd::prelude::*;
use crate::fp::{Fp, ONE_RAW};

verus! {

/// The raw values carried by an optional fixed-point scalar.
pub open spec fn opt_raw(o: Option<Fp>) -> Option<int> {
    match o {
        Some(f) => Some(f@),
        None => None,
    }
}

/// Optional self-energy coefficients of a scheme: a monopole prefactor
/// (per squared charge over the cutoff) and a dipole prefactor (per squared
/// dipole moment over the cubed cutoff).  An absent coefficient means the
/// scheme needs no such correction.
#[derive(Clone, Copy, Debug, PartialEq, Eq, Structural)]
pub struct SelfEnergyPrefactors {
    /// Coefficient of `sum(charge^2) / cutoff`.
    pub monopole: Option<Fp>,
    /// Coefficient of `sum(dipole^2) / cutoff^3`.
    pub dipole: Option<Fp>,
}

/// A short-range switching function: the scalar `S(q)` of the reduced
/// distance `q = r / cutoff` in `[0, 1]`, its first three derivatives, an
/// optional inverse Debye screening length, and self-energy prefactors.
///
/// Every executable method is pinned exactly to the scheme's spec-level
/// formula, so the multipole algebra derives all observables from this
/// interface alone.
pub trait ShortRangeFunction {
    /// Well-formedness of the scheme record, established by its
    /// constructor and preserved forever after (records are immutable).
    spec fn srf_wf(&self) -> bool;

    /// The switching function `S(q)` in raw fixed-point form.
    spec fn f0_spec(&self, q: int) -> int;

    /// First derivative `dS/dq`.
    spec fn f1_spec(&self, q: int) -> int;

    /// Second derivative `d2S/dq2`.
    spec fn f2_spec(&self, q: int) -> int;

    /// Third derivative `d3S/dq3`.
    spec fn f3_spec(&self, q: int) -> int;

    /// The inverse Debye length, when the scheme screens ionically.
    spec fn kappa_spec(&self) -> Option<int>;

    /// The monopole self-energy prefactor, when present.
    spec fn monopole_prefactor_spec(&self) -> Option<int>;

    /// The dipole self-energy prefactor, when present.
    spec fn dipole_prefactor_spec(&self) -> Option<int>;

    /// Evaluate `S(q)`.
    fn short_range_f0(&self, q: Fp) -> (r: Fp)
        requires
            self.srf_wf(),
            0 <= q@ <= ONE_RAW as int,
        ensures
            r@ == self.f0_spec(q@),
    ;

    /// Evaluate `dS/dq`.
    fn short_range_f1(&self, q: Fp) -> (r: Fp)
        requires
            self.srf_wf(),
            0 <= q@ <= ONE_RAW as int,
        ensures
            r@ == self.f1_spec(q@),
    ;

    /// Evaluate `d2S/dq2`.
    fn short_range_f2(&self, q: Fp) -> (r: Fp)
        requires
            self.srf_wf(),
            0 <= q@ <= ONE_RAW as int,
        ensures
            r@ == self.f2_spec(q@),
    ;

    /// Evaluate `d3S/dq3`.
    fn short_range_f3(&self, q: Fp) -> (r: Fp)
        requires
            self.srf_wf(),
            0 <= q@ <= ONE_RAW as int,
        ensures
            r@ == self.f3_spec(q@),
    ;

    /// The inverse Debye screening length, if the scheme has one.
    fn kappa(&self) -> (r: Option<Fp>)
        requires
            self.srf_wf(),
        ensures
            opt_raw(r) == self.kappa_spec(),
    ;

    /// The scheme's self-energy prefactors.
    fn self_energy_prefactors(&self) -> (r: SelfEnergyPrefactors)
        requires
            self.srf_wf(),
        ensures
            opt_raw(r.monopole) == self.monopole_prefactor_spec(),
            opt_raw(r.dipole) == self.dipole_prefactor_spec(),
    ;
}

} // verus!
