//! Saturating binary fixed-point scalars.
//!
//! A [`Fp`] holds a real quantity as `raw / 2^46`.  Every operation is
//! total: magnitudes that would leave the representable range saturate at
//! `i64::MAX / 2^46`.  Each executable operation is pinned exactly to a
//! spec-level counterpart over `int`, so all arithmetic done with these
//! scalars is reproducible bit for bit in specifications.

use vstd::prelude::*;
use vstd::arithmetic::div_mod::lemma_div_by_multiple;
use vstd::arithmetic::div_mod::lemma_div_is_ordered;

verus! {

/// Scale denominator: one unit is `1 / 2^46`.
pub const SCALE: i64 = 70368744177664;

/// Largest representable raw magnitude.
pub const RAW_MAX: i64 = 9223372036854775807;

/// Raw value of the number one.
pub const ONE_RAW: i64 = 70368744177664;

/// Raw value of the number two.
pub const TWO_RAW: i64 = 140737488355328;

/// Raw value of one half.
pub const HALF_RAW: i64 = 35184372088832;

/// Absolute value over `int`.
pub open spec fn abs_int(x: int) -> int {
    if x < 0 {
        -x
    } else {
        x
    }
}

/// Clamp a non-negative magnitude to the representable range.
pub open spec fn sat_mag(m: int) -> int {
    if m > RAW_MAX {
        RAW_MAX as int
    } else {
        m
    }
}

/// Clamp a signed value to the representable range.
pub open spec fn sat(x: int) -> int {
    if x > RAW_MAX {
        RAW_MAX as int
    } else if x < -RAW_MAX {
        -RAW_MAX as int
    } else {
        x
    }
}

/// Attach a sign to a non-negative magnitude.
pub open spec fn signed(neg: bool, m: int) -> int {
    if neg {
        -m
    } else {
        m
    }
}

/// Saturating fixed-point addition of raw values.
pub open spec fn fp_add(a: int, b: int) -> int {
    sat(a + b)
}

/// Saturating fixed-point subtraction of raw values.
pub open spec fn fp_sub(a: int, b: int) -> int {
    sat(a - b)
}

/// Saturating fixed-point negation of a raw value.
pub open spec fn fp_neg(a: int) -> int {
    sat(-a)
}

/// Saturating fixed-point product of raw values.  The magnitude is the
/// floor of the exact product; rounding is symmetric about zero.
pub open spec fn fp_mul(a: int, b: int) -> int {
    signed((a < 0) != (b < 0), sat_mag((abs_int(a) * abs_int(b)) / (SCALE as int)))
}

/// Saturating fixed-point quotient of raw values (`b != 0`).  The
/// magnitude is the floor of the exact quotient; rounding is symmetric
/// about zero.
pub open spec fn fp_div(a: int, b: int) -> int {
    signed((a < 0) != (b < 0), sat_mag((abs_int(a) * (SCALE as int)) / abs_int(b)))
}

/// Fixed-point value divided by a positive integer (`n > 0`), with the
/// magnitude rounded toward zero.
pub open spec fn fp_div_n(a: int, n: int) -> int {
    signed(a < 0, sat_mag(abs_int(a) / n))
}

/// A saturating fixed-point scalar worth `raw / 2^46`.
#[derive(Clone, Copy, Debug, PartialEq, Eq, Structural)]
pub struct Fp {
    /// Numerator over the fixed denominator `2^46`.
    pub raw: i64,
}

impl View for Fp {
    type V = int;

    open spec fn view(&self) -> int {
        self.raw as int
    }
}

impl Fp {
    /// The number zero.
    pub fn zero() -> (r: Fp)
        ensures
            r@ == 0,
    {
        Fp { raw: 0 }
    }

    /// The number one.
    pub fn one() -> (r: Fp)
        ensures
            r@ == ONE_RAW as int,
    {
        Fp { raw: ONE_RAW }
    }

    /// Wrap a raw numerator.
    pub fn from_raw(raw: i64) -> (r: Fp)
        ensures
            r@ == raw as int,
    {
        Fp { raw }
    }

    /// The raw numerator.
    pub fn raw(self) -> (r: i64)
        ensures
            r as int == self@,
    {
        self.raw
    }

    /// Saturating addition.
    pub fn add(self, rhs: Fp) -> (r: Fp)
        ensures
            r@ == fp_add(self@, rhs@),
    {
        let s: i128 = self.raw as i128 + rhs.raw as i128;
        let c: i128 = if s > RAW_MAX as i128 {
            RAW_MAX as i128
        } else if s < -(RAW_MAX as i128) {
            -(RAW_MAX as i128)
        } else {
            s
        };
        Fp { raw: c as i64 }
    }

    /// Saturating subtraction.
    pub fn sub(self, rhs: Fp) -> (r: Fp)
        ensures
            r@ == fp_sub(self@, rhs@),
    {
        let s: i128 = self.raw as i128 - rhs.raw as i128;
        let c: i128 = if s > RAW_MAX as i128 {
            RAW_MAX as i128
        } else if s < -(RAW_MAX as i128) {
            -(RAW_MAX as i128)
        } else {
            s
        };
        Fp { raw: c as i64 }
    }

    /// Saturating negation.
    pub fn neg(self) -> (r: Fp)
        ensures
            r@ == fp_neg(self@),
    {
        let s: i128 = -(self.raw as i128);
        let c: i128 = if s > RAW_MAX as i128 {
            RAW_MAX as i128
        } else {
            s
        };
        Fp { raw: c as i64 }
    }

    /// Saturating product with floor magnitude.
    pub fn mul(self, rhs: Fp) -> (r: Fp)
        ensures
            r@ == fp_mul(self@, rhs@),
    {
        let a: i128 = self.raw as i128;
        let b: i128 = rhs.raw as i128;
        let neg: bool = (a < 0) != (b < 0);
        let am: u128 = if a < 0 {
            (-a) as u128
        } else {
            a as u128
        };
        let bm: u128 = if b < 0 {
            (-b) as u128
        } else {
            b as u128
        };
        assert(am * bm <= 0x8000000000000000u128 * 0x8000000000000000u128) by (nonlinear_arith)
            requires
                am <= 0x8000000000000000u128,
                bm <= 0x8000000000000000u128,
        ;
        let m: u128 = (am * bm) / (SCALE as u128);
        proof {
            lemma_div_is_ordered(
                (am * bm) as int,
                0x8000000000000000i128 as int * 0x8000000000000000i128 as int,
                SCALE as int,
            );
        }
        let mag: i64 = if m > RAW_MAX as u128 {
            RAW_MAX
        } else {
            m as i64
        };
        let raw: i64 = if neg {
            -mag
        } else {
            mag
        };
        Fp { raw }
    }

    /// Saturating quotient with floor magnitude.
    pub fn div(self, rhs: Fp) -> (r: Fp)
        requires
            rhs@ != 0,
        ensures
            r@ == fp_div(self@, rhs@),
    {
        let a: i128 = self.raw as i128;
        let b: i128 = rhs.raw as i128;
        let neg: bool = (a < 0) != (b < 0);
        let am: u128 = if a < 0 {
            (-a) as u128
        } else {
            a as u128
        };
        let bm: u128 = if b < 0 {
            (-b) as u128
        } else {
            b as u128
        };
        assert(am * (SCALE as u128) <= 0x8000000000000000u128 * (SCALE as u128)) by (nonlinear_arith)
            requires
                am <= 0x8000000000000000u128,
        ;
        let m: u128 = (am * (SCALE as u128)) / bm;
        let mag: i64 = if m > RAW_MAX as u128 {
            RAW_MAX
        } else {
            m as i64
        };
        let raw: i64 = if neg {
            -mag
        } else {
            mag
        };
        Fp { raw }
    }

    /// Quotient by a positive integer, magnitude rounded toward zero.
    pub fn div_n(self, n: i64) -> (r: Fp)
        requires
            n > 0,
        ensures
            r@ == fp_div_n(self@, n as int),
    {
        let a: i128 = self.raw as i128;
        let neg: bool = a < 0;
        let am: u128 = if a < 0 {
            (-a) as u128
        } else {
            a as u128
        };
        let m: u128 = am / (n as u128);
        proof {
            lemma_div_is_ordered(am as int, 0x8000000000000000i128 as int, n as int);
        }
        let mag: i64 = if m > RAW_MAX as u128 {
            RAW_MAX
        } else {
            m as i64
        };
        let raw: i64 = if neg {
            -mag
        } else {
            mag
        };
        Fp { raw }
    }
}

/// Raw value of the number three.
pub const THREE_RAW: i64 = 211106232532992;

/// Raw value of the number four.
pub const FOUR_RAW: i64 = 281474976710656;

/// A product of non-negative values is non-negative.
pub proof fn lemma_mul_nonneg(a: int, b: int)
    requires
        a >= 0,
        b >= 0,
    ensures
        fp_mul(a, b) >= 0,
{
    assert(abs_int(a) * abs_int(b) >= 0) by (nonlinear_arith)
        requires
            a >= 0,
            b >= 0,
    ;
    vstd::arithmetic::div_mod::lemma_div_pos_is_pos(abs_int(a) * abs_int(b), SCALE as int);
}

/// A square is non-negative.
pub proof fn lemma_square_nonneg(a: int)
    ensures
        fp_mul(a, a) >= 0,
{
    assert(abs_int(a) * abs_int(a) >= 0) by (nonlinear_arith);
    vstd::arithmetic::div_mod::lemma_div_pos_is_pos(abs_int(a) * abs_int(a), SCALE as int);
}

/// A quotient of a non-negative value by a positive one is non-negative.
pub proof fn lemma_div_nonneg(a: int, b: int)
    requires
        a >= 0,
        b > 0,
    ensures
        fp_div(a, b) >= 0,
{
    assert(abs_int(a) * (SCALE as int) >= 0) by (nonlinear_arith)
        requires
            a >= 0,
    ;
    vstd::arithmetic::div_mod::lemma_div_pos_is_pos(abs_int(a) * (SCALE as int), abs_int(b));
}

/// Doubling is exact up to saturation: multiplying by the representation
/// of two yields the clamped double.
pub proof fn lemma_mul_two(a: int)
    ensures
        fp_mul(TWO_RAW as int, a) == sat(2 * a),
        fp_mul(a, TWO_RAW as int) == sat(2 * a),
        a > 0 ==> fp_mul(TWO_RAW as int, a) >= 2,
{
    lemma_div_by_multiple(2 * abs_int(a), SCALE as int);
    assert((2 * abs_int(a)) * (SCALE as int) == (SCALE as int) * (2 * abs_int(a))) by (nonlinear_arith);
    assert((TWO_RAW as int) * abs_int(a) == (2 * abs_int(a)) * (SCALE as int)) by (nonlinear_arith);
    assert(abs_int(a) * (TWO_RAW as int) == (TWO_RAW as int) * abs_int(a)) by (nonlinear_arith);
}

/// Multiplying by zero gives exactly zero.
pub proof fn lemma_mul_zero(a: int)
    ensures
        fp_mul(a, 0) == 0,
        fp_mul(0, a) == 0,
{
    assert(abs_int(a) * 0 == 0);
    assert(0int / (SCALE as int) == 0);
}

/// Multiplying a representable value by exactly one (or minus one) is exact.
pub proof fn lemma_mul_one(a: int)
    requires
        -RAW_MAX <= a <= RAW_MAX,
    ensures
        fp_mul(a, ONE_RAW as int) == a,
        fp_mul(ONE_RAW as int, a) == a,
        fp_mul(a, -(ONE_RAW as int)) == -a,
{
    lemma_div_by_multiple(abs_int(a), SCALE as int);
    assert(abs_int(a) * (SCALE as int) == (SCALE as int) * abs_int(a)) by (nonlinear_arith);
    assert((abs_int(a) * (ONE_RAW as int)) / (SCALE as int) == abs_int(a));
}

/// Dividing a positive value by itself gives exactly one.
pub proof fn lemma_div_self(a: int)
    requires
        a > 0,
    ensures
        fp_div(a, a) == ONE_RAW as int,
{
    lemma_div_by_multiple(SCALE as int, a);
    assert(a * (SCALE as int) == (SCALE as int) * a) by (nonlinear_arith);
    assert((a * (SCALE as int)) / a == SCALE as int);
}

/// A quotient of a positive numerator by a no-smaller denominator lies in
/// the closed unit interval.
pub proof fn lemma_div_unit(a: int, b: int)
    requires
        0 < a <= b,
    ensures
        0 <= fp_div(a, b) <= ONE_RAW as int,
{
    lemma_div_is_ordered(a * (SCALE as int), b * (SCALE as int), b);
    assert(a * (SCALE as int) <= b * (SCALE as int)) by (nonlinear_arith)
        requires
            0 < a <= b,
    ;
    lemma_div_by_multiple(SCALE as int, b);
    assert(b * (SCALE as int) == (SCALE as int) * b) by (nonlinear_arith);
    assert(a * (SCALE as int) >= 0) by (nonlinear_arith)
        requires
            a > 0,
    ;
    assert((a * (SCALE as int)) / b >= 0);
}

} // verus!
