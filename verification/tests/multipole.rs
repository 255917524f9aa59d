use coulomb::fp::Fp;
use coulomb::cutoff::Cutoff;
use coulomb::ewald::RealSpaceEwald;
use coulomb::plain::Plain;
use coulomb::poisson::Poisson;
use coulomb::reactionfield::ReactionField;
use coulomb::shortrange::ShortRangeFunction;
use coulomb::multipole::{ion_potential, ion_field, ion_ion_energy, ion_ion_force, self_energy};

const SCALE: f64 = 70368744177664.0;

fn fp(x: f64) -> Fp {
    Fp::from_raw((x * SCALE).round() as i64)
}

fn val(x: Fp) -> f64 {
    x.raw() as f64 / SCALE
}

fn close(a: f64, b: f64, eps: f64) -> bool {
    (a - b).abs() <= eps
}

#[test]
fn potential_inside_cutoff_matches_formula() {
    let pot = RealSpaceEwald::new(fp(29.0), fp(0.1), None);
    // charge / r * S(r / cutoff) at r = 14.5 (q = 0.5)
    let expect = 2.0 / 14.5 * 0.04030484067840161;
    assert!(close(val(ion_potential(&pot, fp(2.0), fp(14.5))), expect, 1e-9));
}

#[test]
fn field_inside_cutoff_matches_formula() {
    let pot = RealSpaceEwald::new(fp(29.0), fp(0.1), None);
    // charge / r^2 * (S(q) - q S'(q)) at q = 0.5
    let s0 = 0.04030484067840161;
    let s1 = -0.39971358519150996;
    let expect = 2.0 / (14.5 * 14.5) * (s0 - 0.5 * s1);
    assert!(close(val(ion_field(&pot, fp(2.0), fp(14.5))), expect, 1e-9));
}

#[test]
fn energy_is_charge_times_potential() {
    let pot = RealSpaceEwald::new(fp(29.0), fp(0.1), None);
    let e = ion_ion_energy(&pot, fp(-3.0), fp(2.0), fp(14.5));
    let p = ion_potential(&pot, fp(2.0), fp(14.5));
    assert!(close(val(e), -3.0 * val(p), 1e-10));
    let expect = -3.0 * 2.0 / 14.5 * 0.04030484067840161;
    assert!(close(val(e), expect, 1e-8));
}

#[test]
fn force_is_charge_times_field() {
    let pot = RealSpaceEwald::new(fp(29.0), fp(0.1), None);
    let f = ion_ion_force(&pot, fp(-3.0), fp(2.0), fp(14.5));
    let fld = ion_field(&pot, fp(2.0), fp(14.5));
    assert!(close(val(f), -3.0 * val(fld), 1e-10));
}

#[test]
fn reaction_field_values() {
    let rf = ReactionField::new(fp(29.0), fp(78.5), fp(1.0), false);
    // kappa_rf = (78.5 - 1) / (2 * 78.5 + 1) = 0.4905063291139241
    assert!(close(val(rf.short_range_f0(fp(0.5))), 1.0613132911392405, 1e-10));
    assert!(close(val(rf.short_range_f1(fp(0.5))), 0.3678797468354431, 1e-10));
    assert!(close(val(rf.short_range_f2(fp(0.5))), 1.4715189873417722, 1e-10));
    assert!(close(val(rf.short_range_f3(fp(0.5))), 2.9430379746835442, 1e-10));
    assert!(rf.self_energy_prefactors().monopole.is_none());
    let shifted = ReactionField::new(fp(29.0), fp(78.5), fp(1.0), true);
    assert!(close(
        val(shifted.self_energy_prefactors().monopole.unwrap()),
        -0.745253164556962,
        1e-10
    ));
    assert!(close(val(shifted.short_range_f0(fp(1.0))), 0.0, 1e-12));
}

#[test]
fn poisson_midpoint_value() {
    // Order 1: S(q) = (1-q)^2 (1 + 2q); S(1/2) = 1/2; S''' = 12.
    let poisson = Poisson::new(fp(29.0), 1);
    assert!(close(val(poisson.short_range_f0(fp(0.5))), 0.5, 1e-12));
    assert!(close(val(poisson.short_range_f3(fp(0.5))), 12.0, 1e-12));
    // Order 2: S(q) = (1-q)^3 (1 + 3q + 6q^2); S(1/2) = 1/2.
    let poisson = Poisson::new(fp(29.0), 2);
    assert!(close(val(poisson.short_range_f0(fp(0.5))), 0.5, 1e-12));
    // S'(1/2) = -3 (1/2)^2 * 4 + (1/2)^3 * 9 = -1.875.
    assert!(close(val(poisson.short_range_f1(fp(0.5))), -1.875, 1e-11));
}

#[test]
fn cutoff_accessors() {
    let pot = RealSpaceEwald::new(fp(29.0), fp(0.1), None);
    assert!(close(val(pot.cutoff()), 29.0, 1e-12));
    assert!(close(val(pot.cutoff_squared()), 841.0, 1e-9));
    assert_eq!(pot.lower_cutoff().raw(), 0);
    let plain = Plain::new();
    assert!(val(plain.cutoff()) > 1e5);
}

#[test]
fn screened_self_energy_prefactors() {
    let pot = RealSpaceEwald::new(fp(29.0), fp(0.1), Some(fp(23.0)));
    let prefactors = pot.self_energy_prefactors();
    // -0.14930129209178544 * 29 / 4 from the screened reference value
    assert!(close(
        val(prefactors.monopole.unwrap()),
        -0.14930129209178544 * 29.0 / 4.0,
        1e-7
    ));
    let truncated = coulomb::ewald_truncated::TruncatedEwald::new(fp(29.0), fp(0.1)).unwrap();
    // The windowed scheme keeps half of its slope at contact as monopole term.
    let mono = truncated.self_energy_prefactors().monopole.unwrap();
    let f1_at_zero = truncated.short_range_f1(Fp::zero());
    assert!(close(val(mono), 0.5 * val(f1_at_zero), 1e-12));
    assert!(truncated.self_energy_prefactors().dipole.is_none());
}

#[test]
fn observables_scale_with_the_medium() {
    let pot = RealSpaceEwald::new(fp(29.0), fp(0.1), None);
    let p = ion_potential(&pot, fp(2.0), fp(14.5));
    let scaled = coulomb::multipole::in_medium(p, fp(78.4));
    assert!(close(val(scaled), val(p) / 78.4, 1e-10));
}

#[test]
fn self_energy_accumulates_squares() {
    let pot = RealSpaceEwald::new(fp(29.0), fp(0.1), None);
    // Two charges 1 and 2: prefactor * (1 + 4) / 29.
    let e = self_energy(&pot, &vec![fp(1.0), fp(2.0)], &Vec::new());
    let expect = -(2.9 / f64::sqrt(std::f64::consts::PI)) * 5.0 / 29.0;
    assert!(close(val(e), expect, 1e-9));
}
