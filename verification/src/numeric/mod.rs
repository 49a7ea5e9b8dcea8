//! Numeric support for types that are only approximately algebraic.
//!
//! Floating point numbers approximate the real numbers and do not
//! reliably satisfy basic arithmetic laws such as associativity. The
//! numeric traits of this crate therefore compare values up to an
//! error term; this module holds the comparison itself.

pub mod equal;
