//! The numeric value core of a calculator: a tagged value that carries an
//! arbitrary-precision real component, an imaginary component at the same
//! precision, a unit tag and an optional boolean flag, together with the
//! generalized power operator over such values.

pub mod bigfloat;
pub mod num;

pub use num::KalkNum;
