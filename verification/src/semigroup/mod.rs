//! Semigroups: magmas whose operation is associative.
//!
//! Besides the abstract semigroup there are additive and
//! multiplicative semigroups, each with a numeric counterpart.

pub mod semigroup;

pub mod add_semigroup;

pub mod mul_semigroup;
