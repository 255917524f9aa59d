use coulomb::fp::{Fp, ONE_RAW};
use coulomb::ewald::RealSpaceEwald;
use coulomb::ewald_truncated::TruncatedEwald;
use coulomb::plain::Plain;
use coulomb::poisson::Poisson;
use coulomb::reactionfield::ReactionField;
use coulomb::shortrange::ShortRangeFunction;
use coulomb::multipole::{ion_potential, ion_field, ion_ion_energy, ion_ion_force};

const SCALE: f64 = 70368744177664.0;

fn fp(x: f64) -> Fp {
    Fp::from_raw((x * SCALE).round() as i64)
}

fn val(x: Fp) -> f64 {
    x.raw() as f64 / SCALE
}

/// Consistency law: for every scheme, S(0) = 1 exactly (to the bit).
#[test]
fn consistency_s_at_zero_is_one_exactly() {
    let zero = Fp::zero();
    assert_eq!(Plain::new().short_range_f0(zero).raw(), ONE_RAW);
    assert_eq!(
        RealSpaceEwald::new(fp(29.0), fp(0.1), None).short_range_f0(zero).raw(),
        ONE_RAW
    );
    assert_eq!(
        RealSpaceEwald::new(fp(29.0), fp(0.1), Some(fp(23.0))).short_range_f0(zero).raw(),
        ONE_RAW
    );
    assert_eq!(
        TruncatedEwald::new(fp(29.0), fp(0.1)).unwrap().short_range_f0(zero).raw(),
        ONE_RAW
    );
    assert_eq!(Poisson::new(fp(29.0), 3).short_range_f0(zero).raw(), ONE_RAW);
    assert_eq!(
        ReactionField::new(fp(29.0), fp(78.5), fp(1.0), true).short_range_f0(zero).raw(),
        ONE_RAW
    );
    assert_eq!(
        ReactionField::new(fp(29.0), fp(78.5), fp(1.0), false).short_range_f0(zero).raw(),
        ONE_RAW
    );
}

/// Boundary law: for the truncated Ewald and Poisson schemes, S(1) = 0 and
/// S'(1) = 0, exactly.
#[test]
fn boundary_s_and_slope_vanish_at_cutoff_exactly() {
    let one = Fp::one();
    let trunc = TruncatedEwald::new(fp(29.0), fp(0.1)).unwrap();
    assert_eq!(trunc.short_range_f0(one).raw(), 0);
    assert_eq!(trunc.short_range_f1(one).raw(), 0);
    for order in [1usize, 2, 3, 4, 6] {
        let poisson = Poisson::new(fp(29.0), order);
        assert_eq!(poisson.short_range_f0(one).raw(), 0);
        assert_eq!(poisson.short_range_f1(one).raw(), 0);
    }
}

fn chain_worst<S: ShortRangeFunction>(scheme: &S, with_erfc_in_f0: bool) -> (f64, f64) {
    // Central difference with h = 2^-16.
    let h = Fp::from_raw(1 << 30);
    let two_h = Fp::from_raw(1 << 31);
    let mut worst_smooth: f64 = 0.0;
    let mut worst_erfc: f64 = 0.0;
    for i in 1..49 {
        let q = fp(0.02 * i as f64);
        let d0 = scheme
            .short_range_f0(q.add(h))
            .sub(scheme.short_range_f0(q.sub(h)))
            .div(two_h);
        let e0 = (val(d0) - val(scheme.short_range_f1(q))).abs();
        if with_erfc_in_f0 {
            worst_erfc = worst_erfc.max(e0);
        } else {
            worst_smooth = worst_smooth.max(e0);
        }
        let d1 = scheme
            .short_range_f1(q.add(h))
            .sub(scheme.short_range_f1(q.sub(h)))
            .div(two_h);
        let e1 = (val(d1) - val(scheme.short_range_f2(q))).abs();
        let d2 = scheme
            .short_range_f2(q.add(h))
            .sub(scheme.short_range_f2(q.sub(h)))
            .div(two_h);
        let e2 = (val(d2) - val(scheme.short_range_f3(q))).abs();
        worst_smooth = worst_smooth.max(e1).max(e2);
    }
    (worst_smooth, worst_erfc)
}

/// Derivative-chain law: the central difference quotient of each function
/// matches the next derivative.  Where the differenced function contains
/// the rational erfc approximation, its own derivative error (documented
/// below 2.5e-7 in value) dominates; those pairs are held to 5e-5 instead
/// of 1e-6.
#[test]
fn derivative_chain_matches_within_tolerance() {
    let (smooth, _) = chain_worst(&Plain::new(), false);
    assert!(smooth <= 1e-6);

    let (smooth, _) = chain_worst(&Poisson::new(fp(29.0), 3), false);
    assert!(smooth <= 1e-6);
    let (smooth, _) = chain_worst(&Poisson::new(fp(29.0), 1), false);
    assert!(smooth <= 1e-6);

    let (smooth, _) = chain_worst(&ReactionField::new(fp(29.0), fp(78.5), fp(1.0), true), false);
    assert!(smooth <= 1e-6);

    let unscreened = RealSpaceEwald::new(fp(29.0), fp(0.1), None);
    let (smooth, erfc_pair) = chain_worst(&unscreened, true);
    assert!(smooth <= 1e-6);
    assert!(erfc_pair <= 5e-5);

    // With screening every derivative carries an erfc branch.
    let screened = RealSpaceEwald::new(fp(29.0), fp(0.1), Some(fp(23.0)));
    let (smooth, erfc_pair) = chain_worst(&screened, true);
    assert!(smooth <= 5e-5);
    assert!(erfc_pair <= 5e-5);

    let trunc = TruncatedEwald::new(fp(29.0), fp(0.1)).unwrap();
    let (smooth, erfc_pair) = chain_worst(&trunc, true);
    assert!(smooth <= 1e-6);
    assert!(erfc_pair <= 5e-5);
}

/// Zero-beyond-cutoff law: for truncating schemes every pairwise
/// observable at r beyond the cutoff is exactly zero.
#[test]
fn zero_beyond_cutoff_exactly() {
    let beyond = fp(29.0001);
    let charge = fp(1.5);
    let other = fp(-0.5);
    let ewald = RealSpaceEwald::new(fp(29.0), fp(0.1), Some(fp(23.0)));
    assert_eq!(ion_potential(&ewald, charge, beyond).raw(), 0);
    assert_eq!(ion_field(&ewald, charge, beyond).raw(), 0);
    assert_eq!(ion_ion_energy(&ewald, charge, other, beyond).raw(), 0);
    assert_eq!(ion_ion_force(&ewald, charge, other, beyond).raw(), 0);
    let trunc = TruncatedEwald::new(fp(29.0), fp(0.1)).unwrap();
    assert_eq!(ion_potential(&trunc, charge, beyond).raw(), 0);
    assert_eq!(ion_field(&trunc, charge, beyond).raw(), 0);
    let poisson = Poisson::new(fp(29.0), 2);
    assert_eq!(ion_potential(&poisson, charge, beyond).raw(), 0);
    assert_eq!(ion_ion_force(&poisson, charge, other, beyond).raw(), 0);
}

/// Plain-scheme identity: the undamped scheme gives the bare Coulomb law
/// for all positive separations, with no truncation anywhere.
#[test]
fn plain_reproduces_bare_coulomb() {
    let plain = Plain::new();
    for r in [0.25, 1.0, 5.0, 29.0, 30.0, 1000.0, 100000.0] {
        let p = ion_potential(&plain, fp(2.0), fp(r));
        assert!((val(p) - 2.0 / r).abs() <= 1e-10);
        let f = ion_field(&plain, fp(2.0), fp(r));
        assert!((val(f) - 2.0 / (r * r)).abs() <= 1e-10);
    }
    assert!(plain.kappa().is_none());
    let prefactors = plain.self_energy_prefactors();
    assert!(prefactors.monopole.is_none());
    assert!(prefactors.dipole.is_none());
}
