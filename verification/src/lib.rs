//! Pairwise electrostatic interactions between point multipoles under a
//! family of short-range truncation and damping schemes.
//!
//! Every quantity is a dimensionless scalar held in the fixed-point type
//! [`fp::Fp`]; each scheme supplies the switching function `S(q)` of the
//! reduced distance `q = r / cutoff` together with its first three
//! derivatives and self-energy prefactors, and the multipole algebra
//! derives potential, field, force, energy and self-energy from that
//! interface alone.

pub mod fp;
pub mod math;
pub mod cutoff;
pub mod shortrange;
pub mod plain;
pub mod ewald;
pub mod ewald_truncated;
pub mod poisson;
pub mod reactionfield;
pub mod error;
pub mod permittivity;
pub mod multipole;
