//! Fields: commutative rings in which every element but zero has a
//! multiplicative inverse.

pub mod field;
