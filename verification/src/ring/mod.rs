//! Rings: an additive commutative group and a multiplicative monoid on
//! one set, linked by distributivity.

pub mod ring;
