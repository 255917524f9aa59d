//! Relative permittivity models.
//!
//! A model yields the relative permittivity for a given temperature, or
//! the temperature-out-of-range error when the temperature lies outside
//! the model's valid closed interval; the result is never silently
//! clamped.  The empirical model is
//! `c0 + c1 T + c2 T^2 + c3 / T + c4 ln(T)` over a closed interval.

use vstd::prelude::*;
use crate::fp::{Fp, fp_add, fp_mul, fp_div, ONE_RAW, RAW_MAX};
use crate::math::{ln, ln_spec};
use crate::error::Error;

verus! {

/// Raw fixed-point value of `78.4`: water at 25 degrees Celsius.
pub const WATER_25C_RAW: i64 = 5516909543528858;

/// A model with a (possibly temperature-dependent) relative permittivity.
pub trait RelativePermittivity: Sized {
    /// Well-formedness of the model record.
    spec fn perm_wf(&self) -> bool;

    /// The relative permittivity at the given temperature, or `None` when
    /// the temperature lies outside the model's valid interval.
    spec fn permittivity_spec(&self, temperature: int) -> Option<int>;

    /// Relative permittivity, or the out-of-range error exactly when the
    /// temperature lies outside the model's valid interval.
    fn permittivity(&self, temperature: Fp) -> (r: Result<Fp, Error>)
        requires
            self.perm_wf(),
        ensures
            match r {
                Ok(v) => self.permittivity_spec(temperature@) == Some(v@),
                Err(e) => {
                    &&& self.permittivity_spec(temperature@) is None
                    &&& e == Error::TemperatureOutOfRange
                },
            },
    ;

    /// Whether the temperature lies within the model's valid interval.
    fn temperature_is_ok(&self, temperature: Fp) -> (r: bool)
        requires
            self.perm_wf(),
        ensures
            r == (self.permittivity_spec(temperature@) is Some),
    ;

    /// The model frozen at one temperature, or the out-of-range error.
    fn to_const_permittivity(&self, temperature: Fp) -> (r: Result<ConstantPermittivity, Error>)
        requires
            self.perm_wf(),
        ensures
            match r {
                Ok(c) => self.permittivity_spec(temperature@) == Some(c.permittivity@),
                Err(e) => {
                    &&& self.permittivity_spec(temperature@) is None
                    &&& e == Error::TemperatureOutOfRange
                },
            },
    ;

    /// Try to set the permittivity to a constant value; models without a
    /// settable constant refuse and stay unchanged.
    fn set_permittivity(&mut self, permittivity: Fp) -> (r: Result<(), Error>)
        requires
            old(self).perm_wf(),
        ensures
            final(self).perm_wf(),
            r is Ok ==> forall|t: int|
                final(self).permittivity_spec(t) == Some(permittivity@),
            r is Err ==> *final(self) == *old(self),
    ;
}

/// Temperature-independent relative permittivity.
#[derive(Clone, Copy, Debug, PartialEq, Eq, Structural)]
pub struct ConstantPermittivity {
    /// The constant relative permittivity.
    pub permittivity: Fp,
}

impl ConstantPermittivity {
    /// A new constant permittivity.
    pub fn new(permittivity: Fp) -> (c: ConstantPermittivity)
        ensures
            c.permittivity@ == permittivity@,
            c.perm_wf(),
    {
        ConstantPermittivity { permittivity }
    }
}

impl RelativePermittivity for ConstantPermittivity {
    open spec fn perm_wf(&self) -> bool {
        true
    }

    open spec fn permittivity_spec(&self, temperature: int) -> Option<int> {
        Some(self.permittivity@)
    }

    fn permittivity(&self, temperature: Fp) -> (r: Result<Fp, Error>) {
        Ok(self.permittivity)
    }

    fn temperature_is_ok(&self, temperature: Fp) -> (r: bool) {
        true
    }

    fn to_const_permittivity(&self, temperature: Fp) -> (r: Result<ConstantPermittivity, Error>) {
        Ok(ConstantPermittivity { permittivity: self.permittivity })
    }

    fn set_permittivity(&mut self, permittivity: Fp) -> (r: Result<(), Error>) {
        self.permittivity = permittivity;
        Ok(())
    }
}

/// The empirical permittivity value
/// `c0 + c1 T + c2 T^2 + c3 / T + c4 ln(T)`.
pub open spec fn empirical_value(c0: int, c1: int, c2: int, c3: int, c4: int, t: int) -> int {
    fp_add(
        fp_add(fp_add(fp_add(c0, fp_mul(c1, t)), fp_mul(fp_mul(c2, t), t)), fp_div(c3, t)),
        fp_mul(c4, ln_spec(t)),
    )
}

/// Empirical model for a temperature-dependent relative permittivity over
/// a closed temperature interval (with the lower end at least one, so the
/// logarithm is defined).
#[derive(Clone, Copy, Debug, PartialEq, Eq, Structural)]
pub struct EmpiricalPermittivity {
    /// Constant coefficient.
    pub c0: Fp,
    /// Linear coefficient.
    pub c1: Fp,
    /// Quadratic coefficient.
    pub c2: Fp,
    /// Reciprocal coefficient.
    pub c3: Fp,
    /// Logarithmic coefficient.
    pub c4: Fp,
    /// Lower end of the valid temperature interval.
    pub t_min: Fp,
    /// Upper end of the valid temperature interval.
    pub t_max: Fp,
}

impl EmpiricalPermittivity {
    /// A new empirical model from its five coefficients and its valid
    /// temperature interval.
    pub fn new(coeffs: &[Fp; 5], temperature_interval: (Fp, Fp)) -> (e: EmpiricalPermittivity)
        requires
            temperature_interval.0@ >= ONE_RAW as int,
            temperature_interval.1@ >= temperature_interval.0@,
        ensures
            e.perm_wf(),
            e.c0@ == coeffs[0]@,
            e.c1@ == coeffs[1]@,
            e.c2@ == coeffs[2]@,
            e.c3@ == coeffs[3]@,
            e.c4@ == coeffs[4]@,
            e.t_min@ == temperature_interval.0@,
            e.t_max@ == temperature_interval.1@,
    {
        EmpiricalPermittivity {
            c0: coeffs[0],
            c1: coeffs[1],
            c2: coeffs[2],
            c3: coeffs[3],
            c4: coeffs[4],
            t_min: temperature_interval.0,
            t_max: temperature_interval.1,
        }
    }
}

impl RelativePermittivity for EmpiricalPermittivity {
    open spec fn perm_wf(&self) -> bool {
        &&& self.t_min@ >= ONE_RAW as int
        &&& self.t_max@ >= self.t_min@
    }

    open spec fn permittivity_spec(&self, temperature: int) -> Option<int> {
        if temperature < self.t_min@ || temperature > self.t_max@ {
            None
        } else {
            Some(empirical_value(self.c0@, self.c1@, self.c2@, self.c3@, self.c4@, temperature))
        }
    }

    fn permittivity(&self, temperature: Fp) -> (r: Result<Fp, Error>) {
        if temperature.raw < self.t_min.raw || temperature.raw > self.t_max.raw {
            Err(Error::TemperatureOutOfRange)
        } else {
            let v: Fp = self.c0.add(self.c1.mul(temperature)).add(
                self.c2.mul(temperature).mul(temperature),
            ).add(self.c3.div(temperature)).add(self.c4.mul(ln(temperature)));
            Ok(v)
        }
    }

    fn temperature_is_ok(&self, temperature: Fp) -> (r: bool) {
        temperature.raw >= self.t_min.raw && temperature.raw <= self.t_max.raw
    }

    fn to_const_permittivity(&self, temperature: Fp) -> (r: Result<ConstantPermittivity, Error>) {
        match self.permittivity(temperature) {
            Ok(v) => Ok(ConstantPermittivity { permittivity: v }),
            Err(e) => Err(e),
        }
    }

    fn set_permittivity(&mut self, permittivity: Fp) -> (r: Result<(), Error>) {
        Err(Error::Unsupported("cannot set permittivity for this model"))
    }
}

/// The empirical water model (valid from 273 to 403 kelvin).
pub open spec fn water_model() -> EmpiricalPermittivity {
    EmpiricalPermittivity {
        c0: Fp { raw: -117128690241228720i64 },
        c1: Fp { raw: -62243476393702i64 },
        c2: Fp { raw: 25579038509 },
        c3: Fp { raw: 4562651219749545472 },
        c4: Fp { raw: 21697456358494412 },
        t_min: Fp { raw: 19210667160502272 },
        t_max: Fp { raw: 28358603903598592 },
    }
}

/// The empirical methanol model (valid from 176 to 318 kelvin).
pub open spec fn methanol_model() -> EmpiricalPermittivity {
    EmpiricalPermittivity {
        c0: Fp { raw: -123166898478500128i64 },
        c1: Fp { raw: -69683352609374i64 },
        c2: Fp { raw: 32834056033 },
        c3: Fp { raw: 3614157362755779072 },
        c4: Fp { raw: 23032562541777232 },
        t_min: Fp { raw: 12384898975268864 },
        t_max: Fp { raw: 22377260648497152 },
    }
}

/// The empirical ethanol model (valid from 288 to 328 kelvin).
pub open spec fn ethanol_model() -> EmpiricalPermittivity {
    EmpiricalPermittivity {
        c0: Fp { raw: -107120805223034832i64 },
        c1: Fp { raw: -70726217398087i64 },
        c2: Fp { raw: 36669152591 },
        c3: Fp { raw: 2725659284839814656 },
        c4: Fp { raw: 20626014822770880 },
        t_min: Fp { raw: 20266198323167232 },
        t_max: Fp { raw: 23080948090273792 },
    }
}

/// Relative permittivity of water with its temperature dependence.
pub fn water() -> (e: EmpiricalPermittivity)
    ensures
        e == water_model(),
        e.perm_wf(),
{
    EmpiricalPermittivity {
        c0: Fp { raw: -117128690241228720 },
        c1: Fp { raw: -62243476393702 },
        c2: Fp { raw: 25579038509 },
        c3: Fp { raw: 4562651219749545472 },
        c4: Fp { raw: 21697456358494412 },
        t_min: Fp { raw: 19210667160502272 },
        t_max: Fp { raw: 28358603903598592 },
    }
}

/// Relative permittivity of methanol with its temperature dependence.
pub fn methanol() -> (e: EmpiricalPermittivity)
    ensures
        e == methanol_model(),
        e.perm_wf(),
{
    EmpiricalPermittivity {
        c0: Fp { raw: -123166898478500128 },
        c1: Fp { raw: -69683352609374 },
        c2: Fp { raw: 32834056033 },
        c3: Fp { raw: 3614157362755779072 },
        c4: Fp { raw: 23032562541777232 },
        t_min: Fp { raw: 12384898975268864 },
        t_max: Fp { raw: 22377260648497152 },
    }
}

/// Relative permittivity of ethanol with its temperature dependence.
pub fn ethanol() -> (e: EmpiricalPermittivity)
    ensures
        e == ethanol_model(),
        e.perm_wf(),
{
    EmpiricalPermittivity {
        c0: Fp { raw: -107120805223034832 },
        c1: Fp { raw: -70726217398087 },
        c2: Fp { raw: 36669152591 },
        c3: Fp { raw: 2725659284839814656 },
        c4: Fp { raw: 20626014822770880 },
        t_min: Fp { raw: 20266198323167232 },
        t_max: Fp { raw: 23080948090273792 },
    }
}

/// A perfect conductor: the largest representable permittivity stands in
/// for an infinite one.
pub fn metal() -> (c: ConstantPermittivity)
    ensures
        c.permittivity@ == RAW_MAX as int,
{
    ConstantPermittivity { permittivity: Fp { raw: RAW_MAX } }
}

/// Relative permittivity of free space: exactly one.
pub fn vacuum() -> (c: ConstantPermittivity)
    ensures
        c.permittivity@ == ONE_RAW as int,
{
    ConstantPermittivity { permittivity: Fp { raw: ONE_RAW } }
}

/// Relative permittivity of water at 25 degrees Celsius.
pub fn water_25c() -> (c: ConstantPermittivity)
    ensures
        c.permittivity@ == WATER_25C_RAW as int,
{
    ConstantPermittivity { permittivity: Fp { raw: WATER_25C_RAW } }
}

/// All available permittivity models as one closed tagged union.
#[derive(Clone, Copy, Debug, PartialEq, Eq, Structural)]
pub enum Permittivity {
    /// Custom constant permittivity, independent of temperature.
    Fixed(Fp),
    /// Custom empirical permittivity model with temperature dependence.
    Empirical(EmpiricalPermittivity),
    /// Water with its empirical temperature dependence.
    Water,
    /// Ethanol with its empirical temperature dependence.
    Ethanol,
    /// Methanol with its empirical temperature dependence.
    Methanol,
    /// Perfect conductor: the largest representable permittivity.
    Metal,
    /// Free space: permittivity of exactly one.
    Vacuum,
    /// Water at 25 degrees Celsius.
    Water25,
}

impl RelativePermittivity for Permittivity {
    open spec fn perm_wf(&self) -> bool {
        match self {
            Permittivity::Empirical(e) => e.perm_wf(),
            _ => true,
        }
    }

    open spec fn permittivity_spec(&self, temperature: int) -> Option<int> {
        match self {
            Permittivity::Fixed(v) => Some(v@),
            Permittivity::Empirical(e) => e.permittivity_spec(temperature),
            Permittivity::Water => water_model().permittivity_spec(temperature),
            Permittivity::Ethanol => ethanol_model().permittivity_spec(temperature),
            Permittivity::Methanol => methanol_model().permittivity_spec(temperature),
            Permittivity::Metal => Some(RAW_MAX as int),
            Permittivity::Vacuum => Some(ONE_RAW as int),
            Permittivity::Water25 => Some(WATER_25C_RAW as int),
        }
    }

    fn permittivity(&self, temperature: Fp) -> (r: Result<Fp, Error>) {
        match self {
            Permittivity::Fixed(v) => Ok(*v),
            Permittivity::Empirical(e) => e.permittivity(temperature),
            Permittivity::Water => water().permittivity(temperature),
            Permittivity::Ethanol => ethanol().permittivity(temperature),
            Permittivity::Methanol => methanol().permittivity(temperature),
            Permittivity::Metal => Ok(Fp { raw: RAW_MAX }),
            Permittivity::Vacuum => Ok(Fp { raw: ONE_RAW }),
            Permittivity::Water25 => Ok(Fp { raw: WATER_25C_RAW }),
        }
    }

    fn temperature_is_ok(&self, temperature: Fp) -> (r: bool) {
        match self.permittivity(temperature) {
            Ok(_) => true,
            Err(_) => false,
        }
    }

    fn to_const_permittivity(&self, temperature: Fp) -> (r: Result<ConstantPermittivity, Error>) {
        match self.permittivity(temperature) {
            Ok(v) => Ok(ConstantPermittivity { permittivity: v }),
            Err(e) => Err(e),
        }
    }

    fn set_permittivity(&mut self, permittivity: Fp) -> (r: Result<(), Error>) {
        Err(Error::Unsupported("cannot set permittivity for this model"))
    }
}

} // verus!
