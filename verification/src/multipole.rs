//! The multipole algebra: potential, field, energy, force and self-energy,
//! derived once for every scheme that supplies a cutoff and a short-range
//! function.
//!
//! All observables are radial scalars along the separation axis.  Beyond
//! the cutoff every pairwise observable is exactly zero; inside it the
//! bare Coulomb kernel `1/r`, `1/r^2`, ... is damped by the scheme's
//! switching function and its derivatives.

use vstd::prelude::*;
use crate::fp::{Fp, fp_add, fp_sub, fp_mul, fp_div, lemma_div_unit, lemma_mul_one, RAW_MAX};
use crate::cutoff::Cutoff;
use crate::shortrange::ShortRangeFunction;
use crate::plain::Plain;

verus! {

/// Charge times `S(q) / r`: the electrostatic potential a point charge
/// raises at separation `r` inside the cutoff; zero beyond it.
pub open spec fn ion_potential_spec<T: Cutoff + ShortRangeFunction>(
    scheme: &T,
    charge: int,
    r: int,
) -> int {
    if r > scheme.cutoff_spec() {
        0
    } else {
        fp_mul(fp_div(charge, r), scheme.f0_spec(fp_div(r, scheme.cutoff_spec())))
    }
}

/// Charge times `(S(q) - q S'(q)) / r^2`: the radial electric field of a
/// point charge at separation `r` inside the cutoff; zero beyond it.
pub open spec fn ion_field_spec<T: Cutoff + ShortRangeFunction>(
    scheme: &T,
    charge: int,
    r: int,
) -> int {
    if r > scheme.cutoff_spec() {
        0
    } else {
        let q = fp_div(r, scheme.cutoff_spec());
        fp_mul(
            fp_div(fp_div(charge, r), r),
            fp_sub(scheme.f0_spec(q), fp_mul(q, scheme.f1_spec(q))),
        )
    }
}

/// Interaction energy of two point charges: the first charge times the
/// potential of the second.
pub open spec fn ion_ion_energy_spec<T: Cutoff + ShortRangeFunction>(
    scheme: &T,
    charge1: int,
    charge2: int,
    r: int,
) -> int {
    fp_mul(charge1, ion_potential_spec(scheme, charge2, r))
}

/// Radial force between two point charges: the first charge times the
/// field of the second; positive for like signs (repulsion).
pub open spec fn ion_ion_force_spec<T: Cutoff + ShortRangeFunction>(
    scheme: &T,
    charge1: int,
    charge2: int,
    r: int,
) -> int {
    fp_mul(charge1, ion_field_spec(scheme, charge2, r))
}

/// Fixed-point sum of the squares of a sequence of scalars.
pub open spec fn sum_of_squares(s: Seq<Fp>) -> int
    decreases s.len(),
{
    if s.len() == 0 {
        0
    } else {
        fp_add(sum_of_squares(s.drop_last()), fp_mul(s.last()@, s.last()@))
    }
}

/// Total self-energy: the monopole prefactor times `sum(charge^2)` over
/// the cutoff, plus the dipole prefactor times `sum(dipole^2)` over the
/// cubed cutoff; an absent prefactor contributes nothing.
pub open spec fn self_energy_spec<T: Cutoff + ShortRangeFunction>(
    scheme: &T,
    charges: Seq<Fp>,
    dipoles: Seq<Fp>,
) -> int {
    let rc = scheme.cutoff_spec();
    let mono = match scheme.monopole_prefactor_spec() {
        Some(m) => fp_div(fp_mul(m, sum_of_squares(charges)), rc),
        None => 0,
    };
    let dip = match scheme.dipole_prefactor_spec() {
        Some(d) => fp_div(fp_div(fp_div(fp_mul(d, sum_of_squares(dipoles)), rc), rc), rc),
        None => 0,
    };
    fp_add(mono, dip)
}

/// Electrostatic potential from a point charge at separation `r`.
/// Zero-beyond-cutoff law: any separation past the cutoff yields exactly
/// zero instead of an out-of-domain evaluation of `S`.
pub fn ion_potential<T: Cutoff + ShortRangeFunction>(scheme: &T, charge: Fp, r: Fp) -> (p: Fp)
    requires
        scheme.srf_wf(),
        scheme.cutoff_spec() > 0,
        r@ > 0,
    ensures
        p@ == ion_potential_spec(scheme, charge@, r@),
        r@ > scheme.cutoff_spec() ==> p@ == 0,
{
    let rc: Fp = scheme.cutoff();
    if r.raw > rc.raw {
        Fp::zero()
    } else {
        proof {
            lemma_div_unit(r@, rc@);
        }
        let q: Fp = r.div(rc);
        let s: Fp = scheme.short_range_f0(q);
        charge.div(r).mul(s)
    }
}

/// Radial electric field from a point charge at separation `r`; zero
/// beyond the cutoff.
pub fn ion_field<T: Cutoff + ShortRangeFunction>(scheme: &T, charge: Fp, r: Fp) -> (f: Fp)
    requires
        scheme.srf_wf(),
        scheme.cutoff_spec() > 0,
        r@ > 0,
    ensures
        f@ == ion_field_spec(scheme, charge@, r@),
        r@ > scheme.cutoff_spec() ==> f@ == 0,
{
    let rc: Fp = scheme.cutoff();
    if r.raw > rc.raw {
        Fp::zero()
    } else {
        proof {
            lemma_div_unit(r@, rc@);
        }
        let q: Fp = r.div(rc);
        let s0: Fp = scheme.short_range_f0(q);
        let s1: Fp = scheme.short_range_f1(q);
        charge.div(r).div(r).mul(s0.sub(q.mul(s1)))
    }
}

/// Interaction energy of two point charges at separation `r`; symmetric
/// in the charges and zero beyond the cutoff.
pub fn ion_ion_energy<T: Cutoff + ShortRangeFunction>(
    scheme: &T,
    charge1: Fp,
    charge2: Fp,
    r: Fp,
) -> (e: Fp)
    requires
        scheme.srf_wf(),
        scheme.cutoff_spec() > 0,
        r@ > 0,
    ensures
        e@ == ion_ion_energy_spec(scheme, charge1@, charge2@, r@),
        r@ > scheme.cutoff_spec() ==> e@ == 0,
{
    let p: Fp = ion_potential(scheme, charge2, r);
    proof {
        if r@ > scheme.cutoff_spec() {
            crate::fp::lemma_mul_zero(charge1@);
        }
    }
    charge1.mul(p)
}

/// Radial force between two point charges at separation `r`; repulsive
/// for like signs and zero beyond the cutoff.
pub fn ion_ion_force<T: Cutoff + ShortRangeFunction>(
    scheme: &T,
    charge1: Fp,
    charge2: Fp,
    r: Fp,
) -> (f: Fp)
    requires
        scheme.srf_wf(),
        scheme.cutoff_spec() > 0,
        r@ > 0,
    ensures
        f@ == ion_ion_force_spec(scheme, charge1@, charge2@, r@),
        r@ > scheme.cutoff_spec() ==> f@ == 0,
{
    let fld: Fp = ion_field(scheme, charge2, r);
    proof {
        if r@ > scheme.cutoff_spec() {
            crate::fp::lemma_mul_zero(charge1@);
        }
    }
    charge1.mul(fld)
}

/// Fixed-point sum of squares of a slice of scalars.
fn sum_squares(values: &Vec<Fp>) -> (s: Fp)
    ensures
        s@ == sum_of_squares(values@),
{
    let mut acc: Fp = Fp::zero();
    let mut i: usize = 0;
    while i < values.len()
        invariant
            0 <= i <= values.len(),
            acc@ == sum_of_squares(values@.subrange(0, i as int)),
        decreases values.len() - i,
    {
        let v: Fp = values[i];
        proof {
            assert(values@.subrange(0, i + 1 as int).drop_last() =~= values@.subrange(0, i as int));
            assert(values@.subrange(0, i + 1 as int).last() == values@[i as int]);
        }
        acc = acc.add(v.mul(v));
        i = i + 1;
    }
    proof {
        assert(values@.subrange(0, values@.len() as int) =~= values@);
    }
    acc
}

/// Self-energy correction for a set of point charges and dipole moments:
/// cancels the spurious self-interaction a damped lattice-sum scheme
/// introduces.  A pure function of the two sequences and the scheme.
pub fn self_energy<T: Cutoff + ShortRangeFunction>(
    scheme: &T,
    charges: &Vec<Fp>,
    dipoles: &Vec<Fp>,
) -> (e: Fp)
    requires
        scheme.srf_wf(),
        scheme.cutoff_spec() > 0,
    ensures
        e@ == self_energy_spec(scheme, charges@, dipoles@),
{
    let rc: Fp = scheme.cutoff();
    let prefactors = scheme.self_energy_prefactors();
    let mono: Fp = match prefactors.monopole {
        Some(m) => m.mul(sum_squares(charges)).div(rc),
        None => Fp::zero(),
    };
    let dip: Fp = match prefactors.dipole {
        Some(d) => d.mul(sum_squares(dipoles)).div(rc).div(rc).div(rc),
        None => Fp::zero(),
    };
    mono.add(dip)
}

/// Scale an observable by an externally supplied relative permittivity:
/// in a dielectric medium every potential, field, energy and force is
/// divided by it.
pub fn in_medium(value: Fp, relative_permittivity: Fp) -> (r: Fp)
    requires
        relative_permittivity@ > 0,
    ensures
        r@ == fp_div(value@, relative_permittivity@),
{
    value.div(relative_permittivity)
}

/// Plain-scheme identity: the undamped scheme reproduces the bare Coulomb
/// law exactly for every positive separation, with no truncation.
pub proof fn lemma_plain_coulomb(scheme: &Plain, charge: int, r: int)
    requires
        scheme.srf_wf(),
        0 < r <= RAW_MAX as int,
    ensures
        ion_potential_spec(scheme, charge, r) == fp_div(charge, r),
        ion_field_spec(scheme, charge, r) == fp_div(fp_div(charge, r), r),
{
    let q = fp_div(r, scheme.cutoff_spec());
    lemma_mul_one(fp_div(charge, r));
    crate::fp::lemma_mul_zero(q);
    lemma_mul_one(fp_div(fp_div(charge, r), r));
}

} // verus!
