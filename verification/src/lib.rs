//! Abstract algebraic structures as traits with verified contracts.
//!
//! The crate models the usual tower of structures: magma, semigroup,
//! monoid, group, commutative group, ring, commutative ring and field.
//! Each structure is a trait that requires the one below it and adds
//! operations and predicates that test the structure's axioms on given
//! values.
//!
//! Every structure comes in an exact family and a numeric family. The
//! exact traits compare with `==`. The numeric traits (prefix `Num`)
//! are for types such as floating point numbers, which satisfy the
//! axioms only up to an error term, and compare with `NumEq::num_eq`.
//!
//! An operation `f` of a trait is tied to a specification function
//! `f_spec`, and the contract of each axiom predicate says exactly
//! which comparison it returns. That the axioms hold of all values is
//! proved, as public proof functions next to the implementations, for
//! the built-in integer types under wrapping arithmetic, for the
//! finite fields of [`finite`] and for the rational numbers of
//! [`rational`]. The doubled algebras of [`complex`] stand over a
//! numeric scalar, so their additive axioms are proved to hold where
//! those of the scalar do.
//!
//! Abbreviations in names: `Num` numeric, `Add` additive, `Mul`
//! multiplicative, `Com` commutative.

pub mod types;
pub mod logic;
pub mod numeric;
pub mod magma;
pub mod modular;
pub mod semigroup;
pub mod monoid;
pub mod group;
pub mod com_group;
pub mod ring;
pub mod com_ring;
pub mod field;
pub mod complex;
pub mod finite;
pub mod rational;
pub mod prelude;
