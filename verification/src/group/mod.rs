//! Groups: monoids in which every element has an inverse.
//!
//! Besides the abstract group there are additive and multiplicative
//! groups, each with a numeric counterpart.

pub mod group;

pub mod add_group;

pub mod mul_group;
