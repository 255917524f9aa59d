use coulomb::fp::Fp;
use coulomb::ewald::RealSpaceEwald;
use coulomb::shortrange::ShortRangeFunction;
use coulomb::multipole::self_energy;

const SCALE: f64 = 70368744177664.0;

fn fp(x: f64) -> Fp {
    Fp::from_raw((x * SCALE).round() as i64)
}

fn val(x: Fp) -> f64 {
    x.raw() as f64 / SCALE
}

fn close(a: f64, b: f64, eps: f64) -> bool {
    (a - b).abs() <= eps
}

#[test]
fn test_ewald() {
    // Short-ranged function without salt
    let pot = RealSpaceEwald::new(fp(29.0), fp(0.1), None);
    let eps = 1e-8;

    assert!(close(
        val(self_energy(&pot, &vec![fp(2.0)], &vec![fp(0.0)])),
        -0.2256758334,
        eps
    ));
    assert!(close(
        val(self_energy(&pot, &vec![fp(0.0)], &vec![fp(f64::sqrt(2.0))])),
        -0.000752257778,
        eps
    ));

    assert!(close(val(pot.short_range_f0(fp(0.5))), 0.04030484067840161, eps));
    assert!(close(val(pot.short_range_f1(fp(0.5))), -0.39971358519150996, eps));
    assert!(close(val(pot.short_range_f2(fp(0.5))), 3.36159125, eps));
    assert!(close(val(pot.short_range_f3(fp(0.5))), -21.54779992186245, eps));

    // Short-ranged function with a Debye screening length
    let pot = RealSpaceEwald::new(fp(29.0), fp(0.1), Some(fp(23.0)));
    let eps = 1e-7;

    assert!(close(
        val(self_energy(&pot, &vec![fp(2.0)], &vec![fp(0.0)])),
        -0.14930129209178544,
        eps
    ));
    assert!(close(
        val(self_energy(&pot, &vec![fp(0.0)], &vec![fp(f64::sqrt(2.0))])),
        -0.0006704901976,
        eps
    ));

    assert!(close(val(pot.kappa().unwrap()), 1.0 / 23.0, eps));
    assert!(close(val(pot.short_range_f0(fp(0.5))), 0.07306333588, eps));
    assert!(close(val(pot.short_range_f1(fp(0.5))), -0.6344413331247332, eps));
    assert!(close(val(pot.short_range_f2(fp(0.5))), 4.42313324197739, eps));
    assert!(close(val(pot.short_range_f3(fp(0.5))), -19.859372613319028, eps));
}

#[test]
fn ewald_kappa_absent_without_salt() {
    let pot = RealSpaceEwald::new_without_salt(fp(29.0), fp(0.1));
    assert!(pot.kappa().is_none());
    let prefactors = pot.self_energy_prefactors();
    assert!(close(val(prefactors.monopole.unwrap()), -2.9 / f64::sqrt(std::f64::consts::PI), 1e-10));
    assert!(close(
        val(prefactors.dipole.unwrap()),
        -2.0 * 2.9f64.powi(3) / (3.0 * f64::sqrt(std::f64::consts::PI)),
        1e-9
    ));
}

#[test]
fn ewald_self_energy_of_nothing_is_zero() {
    let pot = RealSpaceEwald::new(fp(29.0), fp(0.1), None);
    let none: Vec<Fp> = Vec::new();
    assert_eq!(self_energy(&pot, &none, &none).raw(), 0);
}
