use coulomb::fp::{Fp, ONE_RAW, RAW_MAX};
use coulomb::math::{erfc, exp_neg, exp_pos, ln};

const SCALE: f64 = 70368744177664.0;

fn fp(x: f64) -> Fp {
    Fp::from_raw((x * SCALE).round() as i64)
}

fn val(x: Fp) -> f64 {
    x.raw() as f64 / SCALE
}

fn close(a: f64, b: f64, eps: f64) -> bool {
    (a - b).abs() <= eps
}

#[test]
fn arithmetic_is_exact_on_exact_inputs() {
    assert_eq!(fp(1.5).add(fp(2.25)).raw(), fp(3.75).raw());
    assert_eq!(fp(1.5).sub(fp(2.25)).raw(), fp(-0.75).raw());
    assert_eq!(fp(1.5).mul(fp(2.0)).raw(), fp(3.0).raw());
    assert_eq!(fp(3.0).div(fp(2.0)).raw(), fp(1.5).raw());
    assert_eq!(fp(-3.0).div_n(2).raw(), fp(-1.5).raw());
    assert_eq!(fp(2.0).neg().raw(), fp(-2.0).raw());
    assert_eq!(Fp::one().raw(), ONE_RAW);
    assert_eq!(Fp::zero().raw(), 0);
}

#[test]
fn arithmetic_saturates_instead_of_wrapping() {
    let huge = Fp::from_raw(RAW_MAX);
    assert_eq!(huge.add(huge).raw(), RAW_MAX);
    assert_eq!(huge.neg().sub(huge).raw(), -RAW_MAX);
    assert_eq!(huge.mul(huge).raw(), RAW_MAX);
    assert_eq!(huge.mul(huge.neg()).raw(), -RAW_MAX);
    assert_eq!(huge.div(Fp::from_raw(1)).raw(), RAW_MAX);
}

#[test]
fn exponential_matches_the_float_library() {
    assert_eq!(exp_pos(Fp::zero()).raw(), ONE_RAW);
    assert_eq!(exp_neg(Fp::zero()).raw(), ONE_RAW);
    for x in [0.1, 0.5, 1.0, 2.0, 5.0, 8.41, 10.0] {
        assert!(close(val(exp_pos(fp(x))), x.exp(), 1e-7 * x.exp()));
        assert!(close(val(exp_neg(fp(x))), (-x).exp(), 1e-10));
    }
}

#[test]
fn erfc_is_one_at_zero_and_two_minus_itself_reflected() {
    assert_eq!(erfc(Fp::zero()).raw(), ONE_RAW);
    for x in [0.2, 0.7326, 1.45, 2.1674, 3.0] {
        let plus = erfc(fp(x)).raw();
        let minus = erfc(fp(x).neg()).raw();
        assert_eq!(plus + minus, 2 * ONE_RAW);
    }
    // Against the rational approximation's documented accuracy.
    for x in [0.1, 0.5, 1.0, 1.45, 2.0, 3.0] {
        let reference = erfc_reference(x);
        assert!(close(val(erfc(fp(x))), reference, 3e-7));
    }
}

// The true complementary error function, via its series (f64, test-only).
fn erfc_reference(x: f64) -> f64 {
    let mut term = x;
    let mut sum = x;
    for n in 1..60 {
        term *= -x * x / n as f64;
        sum += term / (2 * n + 1) as f64;
    }
    1.0 - 2.0 / f64::sqrt(std::f64::consts::PI) * sum
}

#[test]
fn logarithm_matches_the_float_library() {
    assert_eq!(ln(Fp::one()).raw(), 0);
    for x in [1.0, 1.5, 2.0, 176.0, 298.15, 403.0, 100000.0] {
        assert!(close(val(ln(fp(x))), x.ln(), 1e-9));
    }
}
