//! The abstract semigroup.
//!
//! A semigroup is a magma `S` whose operation `·` is associative.
//!
//! # Axioms
//!
//! 1. Magma: the magma axioms hold.
//! 2. Associativity: ∀x, y, z ∈ S, (x·y)·z = x·(y·z).

use vstd::prelude::*;
use vstd::std_specs::cmp::PartialEqSpec;
use crate::magma::magma::Magma;
use crate::types::Triple;

verus! {

/// An algebraic semigroup.
pub trait Semigroup: Magma {
    /// Test the axiom of associativity.
    fn axiom_associativity(xs: Triple<Self>) -> (holds: bool)
        ensures
            Self::obeys_eq_spec() ==> holds == xs.0.op_spec(&xs.1.op_spec(xs.2)).eq_spec(
                &xs.0.op_spec(xs.1).op_spec(xs.2),
            ),
    {
        let (x, y, z) = xs;

        x.op(&y.op(z)) == x.op(y).op(z)
    }
}

} // verus!
