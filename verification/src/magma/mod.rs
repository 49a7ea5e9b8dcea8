//! Magmas: sets with one closed binary operation.
//!
//! Besides the abstract magma there are additive and multiplicative
//! magmas, each with a numeric counterpart.

pub mod magma;

pub mod add_magma;

pub mod mul_magma;
