//! The abstract monoid.
//!
//! A monoid is a semigroup `S` with an identity element `e`.
//!
//! # Axioms
//!
//! 1. Semigroup: the semigroup axioms hold.
//! 2. Identity: ∃e ∈ S, ∀x ∈ S, e·x = x·e = x.

use vstd::prelude::*;
use vstd::std_specs::cmp::PartialEqSpec;
use crate::semigroup::semigroup::Semigroup;

verus! {

/// An algebraic monoid.
pub trait Monoid: Semigroup {
    /// The identity element.
    spec fn id_spec() -> Self;

    /// The identity element of the monoid.
    fn id() -> (r: Self)
        ensures
            r == Self::id_spec(),
    ;

    /// Test for the identity element.
    fn is_id(&self) -> (r: bool)
        ensures
            Self::obeys_eq_spec() ==> r == self.eq_spec(&Self::id_spec()),
    {
        *self == Self::id()
    }

    /// Test the left identity axiom.
    fn axiom_left_identity(&self) -> (holds: bool)
        ensures
            Self::obeys_eq_spec() ==> holds == Self::id_spec().op_spec(self).eq_spec(self),
    {
        Self::id().op(self) == *self
    }

    /// Test the right identity axiom.
    fn axiom_right_identity(&self) -> (holds: bool)
        ensures
            Self::obeys_eq_spec() ==> holds == self.op_spec(&Self::id_spec()).eq_spec(self),
    {
        self.op(&Self::id()) == *self
    }
}

} // verus!
