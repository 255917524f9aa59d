//! Errors returned by this crate.

use vstd::prelude::*;

verus! {

/// Input-validation failures, reported at construction time or at the
/// permittivity boundary; evaluation itself is total and never fails.
#[derive(Clone, Copy, Debug, PartialEq, Eq)]
pub enum Error {
    /// Cannot resolve stoichiometry; provide both positive and negative ions.
    Stoichiometry,
    /// Temperature out of range for the permittivity model.
    TemperatureOutOfRange,
    /// Molarity must be positive and finite.
    InvalidMolarity,
    /// Cannot set molarity without a salt.
    MissingSalt,
    /// Operation not supported.
    Unsupported(&'static str),
    /// Spline error.
    Spline(&'static str),
}

impl Error {
    /// A short description of the failure.
    pub fn message(&self) -> (r: &'static str) {
        match self {
            Error::Stoichiometry => "cannot resolve stoichiometry; provide both positive and negative ions",
            Error::TemperatureOutOfRange => "temperature out of range for permittivity model",
            Error::InvalidMolarity => "molarity must be positive and finite",
            Error::MissingSalt => "cannot set molarity without a salt",
            Error::Unsupported(what) => what,
            Error::Spline(what) => what,
        }
    }
}

} // verus!
