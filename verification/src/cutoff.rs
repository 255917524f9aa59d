//! Spherical interaction cutoff.

use vstd::prelude::*;
use crate::fp::{Fp, fp_mul};

verus! {

/// A spherical cutoff: an upper interaction radius and an optional lower
/// one (zero when absent).
pub trait Cutoff {
    /// The upper cutoff radius, in raw fixed-point form.
    spec fn cutoff_spec(&self) -> int;

    /// The lower cutoff radius, in raw fixed-point form.
    spec fn lower_cutoff_spec(&self) -> int;

    /// Upper cutoff distance.
    fn cutoff(&self) -> (r: Fp)
        ensures
            r@ == self.cutoff_spec(),
    ;

    /// Squared upper cutoff distance.
    fn cutoff_squared(&self) -> (r: Fp)
        ensures
            r@ == fp_mul(self.cutoff_spec(), self.cutoff_spec()),
    ;

    /// Lower cutoff distance.
    fn lower_cutoff(&self) -> (r: Fp)
        ensures
            r@ == self.lower_cutoff_spec(),
    ;
}

} // verus!
