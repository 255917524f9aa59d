use coulomb::fp::Fp;
use coulomb::error::Error;
use coulomb::permittivity::{
    ConstantPermittivity, EmpiricalPermittivity, Permittivity, RelativePermittivity, ethanol,
    metal, methanol, vacuum, water, water_25c,
};

const SCALE: f64 = 70368744177664.0;

fn fp(x: f64) -> Fp {
    Fp::from_raw((x * SCALE).round() as i64)
}

fn val(x: Fp) -> f64 {
    x.raw() as f64 / SCALE
}

fn close(a: f64, b: f64, eps: f64) -> bool {
    (a - b).abs() <= eps
}

#[test]
fn constant_permittivity_is_temperature_independent() {
    let dielec = ConstantPermittivity::new(fp(2.0));
    assert!(close(val(dielec.permittivity(fp(298.15)).unwrap()), 2.0, 1e-12));
    assert!(dielec.temperature_is_ok(fp(1.0e5)));
    assert!(close(val(vacuum().permittivity(fp(298.15)).unwrap()), 1.0, 0.0));
    assert!(val(metal().permittivity(fp(298.15)).unwrap()) > 1.0e5);
    assert!(close(val(water_25c().permittivity(fp(350.0)).unwrap()), 78.4, 1e-10));
}

#[test]
fn empirical_models_match_reference_values() {
    assert!(close(val(water().permittivity(fp(298.15)).unwrap()), 78.35565171480539, 1e-6));
    assert!(close(val(methanol().permittivity(fp(298.15)).unwrap()), 33.081980713895064, 1e-6));
    assert!(close(val(ethanol().permittivity(fp(298.15)).unwrap()), 24.33523434183735, 1e-6));
}

#[test]
fn out_of_range_temperature_is_reported() {
    // Water is valid on [273, 403] kelvin.
    assert!(matches!(
        water().permittivity(fp(272.9)),
        Err(Error::TemperatureOutOfRange)
    ));
    assert!(matches!(
        water().permittivity(fp(403.1)),
        Err(Error::TemperatureOutOfRange)
    ));
    assert!(water().permittivity(fp(273.0)).is_ok());
    assert!(water().permittivity(fp(403.0)).is_ok());
    assert!(!water().temperature_is_ok(fp(500.0)));
    assert!(water().temperature_is_ok(fp(300.0)));
}

#[test]
fn to_const_freezes_the_model() {
    let frozen = water().to_const_permittivity(fp(298.15)).unwrap();
    assert!(close(val(frozen.permittivity), 78.35565171480539, 1e-6));
    assert!(frozen.temperature_is_ok(fp(9999.0)));
    assert!(matches!(
        water().to_const_permittivity(fp(500.0)),
        Err(Error::TemperatureOutOfRange)
    ));
}

#[test]
fn set_permittivity_only_on_constant_models() {
    let mut dielec = ConstantPermittivity::new(fp(2.0));
    assert!(dielec.set_permittivity(fp(30.0)).is_ok());
    assert!(close(val(dielec.permittivity(fp(1.0)).unwrap()), 30.0, 1e-12));
    let mut model = water();
    assert!(matches!(model.set_permittivity(fp(30.0)), Err(Error::Unsupported(_))));
    let mut tagged = Permittivity::Water;
    assert!(matches!(tagged.set_permittivity(fp(30.0)), Err(Error::Unsupported(_))));
}

#[test]
fn tagged_union_dispatches_to_each_model() {
    assert!(close(
        val(Permittivity::Water.permittivity(fp(298.15)).unwrap()),
        78.35565171480539,
        1e-6
    ));
    assert!(close(
        val(Permittivity::Methanol.permittivity(fp(298.15)).unwrap()),
        33.081980713895064,
        1e-6
    ));
    assert!(close(
        val(Permittivity::Ethanol.permittivity(fp(298.15)).unwrap()),
        24.33523434183735,
        1e-6
    ));
    assert!(close(val(Permittivity::Fixed(fp(5.5)).permittivity(fp(1.0)).unwrap()), 5.5, 1e-12));
    assert!(close(val(Permittivity::Vacuum.permittivity(fp(1.0)).unwrap()), 1.0, 0.0));
    assert!(close(val(Permittivity::Water25.permittivity(fp(1.0)).unwrap()), 78.4, 1e-10));
    assert!(val(Permittivity::Metal.permittivity(fp(1.0)).unwrap()) > 1.0e5);
    let custom = Permittivity::Empirical(EmpiricalPermittivity::new(
        &[fp(-1664.4988), fp(-0.884533), fp(0.0003635), fp(64839.1736), fp(308.3394)],
        (fp(273.0), fp(403.0)),
    ));
    assert!(close(val(custom.permittivity(fp(298.15)).unwrap()), 78.35565171480539, 1e-6));
    assert!(matches!(
        custom.permittivity(fp(272.0)),
        Err(Error::TemperatureOutOfRange)
    ));
}

#[test]
fn error_messages_describe_each_kind() {
    assert_eq!(
        Error::TemperatureOutOfRange.message(),
        "temperature out of range for permittivity model"
    );
    assert_eq!(
        Error::Stoichiometry.message(),
        "cannot resolve stoichiometry; provide both positive and negative ions"
    );
    assert_eq!(Error::InvalidMolarity.message(), "molarity must be positive and finite");
    assert_eq!(Error::MissingSalt.message(), "cannot set molarity without a salt");
    assert_eq!(Error::Unsupported("no such operation").message(), "no such operation");
    assert_eq!(Error::Spline(      "knots out of order").message(), "knots out of order");
}
