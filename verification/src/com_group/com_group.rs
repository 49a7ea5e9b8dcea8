//! The abstract commutative group.
//!
//! A commutative (or abelian) group is a group `S` whose operation `·`
//! is commutative.
//!
//! # Axioms
//!
//! 1. Group: the group axioms hold.
//! 2. Commutativity: ∀g, h ∈ S, g·h = h·g.

use vstd::prelude::*;
use vstd::std_specs::cmp::PartialEqSpec;
use crate::group::group::Group;
use crate::types::Pair;

verus! {

/// An algebraic commutative group.
pub trait ComGroup: Group {
    /// Test the axiom of commutativity.
    fn axiom_commutivity(xs: Pair<Self>) -> (holds: bool)
        ensures
            Self::obeys_eq_spec() ==> holds == xs.0.op_spec(xs.1).eq_spec(&xs.1.op_spec(xs.0)),
    {
        let (x, y) = xs;

        x.op(y) == y.op(x)
    }
}

} // verus!
