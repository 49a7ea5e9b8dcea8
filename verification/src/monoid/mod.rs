//! Monoids: semigroups with an identity element.
//!
//! Besides the abstract monoid there are additive and multiplicative
//! monoids, each with a numeric counterpart.

pub mod monoid;

pub mod add_monoid;

pub mod mul_monoid;
