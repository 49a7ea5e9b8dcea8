//! The abstract magma.
//!
//! A magma is a set `S` with a binary operation `·`.
//!
//! # Axioms
//!
//! 1. Closure: ∀x, y ∈ S, x·y ∈ S.

use vstd::prelude::*;
use crate::types::Pair;

verus! {

/// An abstract algebraic magma.
pub trait Magma: Sized + PartialEq {
    /// The value of `x·y`.
    spec fn op_spec(&self, other: &Self) -> Self;

    /// The binary operation of the magma.
    fn op(&self, other: &Self) -> (r: Self)
        ensures
            r == self.op_spec(other),
    ;

    /// Test the axiom of closure. The operation returns a `Self`, so
    /// the axiom holds of every pair.
    fn axiom_closure(_xs: Pair<Self>) -> (holds: bool)
        ensures
            holds,
    {
        true
    }
}

} // verus!
