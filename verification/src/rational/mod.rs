//! Rational numbers of unbounded size as a field.
//!
//! The arithmetic is that of `num`'s `BigRational`. [`fraction`] holds
//! the mathematical model that the contracts speak of, [`rational`]
//! the type and its operations, and [`laws`] the field laws.

pub mod fraction;

pub mod rational;

pub mod laws;
