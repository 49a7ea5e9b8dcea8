//! The abstract group.
//!
//! A group is a monoid `S` in which each element `g` has an inverse
//! element `g^-1`.
//!
//! # Axioms
//!
//! 1. Monoid: the monoid axioms hold.
//! 2. Inverse: ∀g ∈ S, ∃g^-1 ∈ S, g·g^-1 = g^-1·g = e.

use vstd::prelude::*;
use vstd::std_specs::cmp::PartialEqSpec;
use crate::monoid::monoid::Monoid;

verus! {

/// An algebraic group.
pub trait Group: Monoid {
    /// The inverse of `g`.
    spec fn inverse_spec(&self) -> Self;

    /// The inverse of a group element.
    fn inverse(&self) -> (r: Self)
        ensures
            r == self.inverse_spec(),
    ;

    /// The cancellation of a group element: the element combined with
    /// its inverse.
    fn cancel(&self) -> (r: Self)
        ensures
            r == self.op_spec(&self.inverse_spec()),
    {
        self.op(&self.inverse())
    }

    /// Test the left inverse axiom.
    fn axiom_left_inverse(&self) -> (holds: bool)
        ensures
            Self::obeys_eq_spec() ==> holds == self.inverse_spec().op_spec(self).eq_spec(
                &Self::id_spec(),
            ),
    {
        self.inverse().op(self) == Self::id()
    }

    /// Test the right inverse axiom.
    fn axiom_right_inverse(&self) -> (holds: bool)
        ensures
            Self::obeys_eq_spec() ==> holds == self.op_spec(&self.inverse_spec()).eq_spec(
                &Self::id_spec(),
            ),
    {
        self.op(&self.inverse()) == Self::id()
    }
}

} // verus!
