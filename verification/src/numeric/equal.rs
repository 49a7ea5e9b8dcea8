//! Numeric equality: equality up to an error term.

use vstd::prelude::*;
use vstd::std_specs::cmp::PartialEqSpec;

verus! {

/// Numeric equality predicates.
///
/// A type states through `num_eq_spec` when two of its values count as
/// equal within an error term `eps`; every numeric axiom predicate of
/// this crate is stated over that relation.
pub trait NumEq: PartialEq {
    /// The type of the error term; it may differ from `Self`.
    type Error;

    /// Whether `self` and `other` are numerically equal within `eps`.
    spec fn num_eq_spec(&self, other: &Self, eps: &Self::Error) -> bool;

    /// Are two values numerically equal within `eps`?
    fn num_eq(&self, other: &Self, eps: &Self::Error) -> (r: bool)
        ensures
            r == self.num_eq_spec(other, eps),
    ;

    /// Are two values numerically unequal within `eps`?
    fn num_ne(&self, other: &Self, eps: &Self::Error) -> (r: bool)
        ensures
            r == !self.num_eq_spec(other, eps),
    {
        !self.num_eq(other, eps)
    }

    /// Are two values equal within the type's default error term?
    ///
    /// The provided method knows no error term and compares exactly.
    fn default_eq(&self, other: &Self) -> (r: bool)
        default_ensures
            Self::obeys_eq_spec() ==> r == self.eq_spec(other),
    {
        self == other
    }

    /// Are two values unequal within the type's default error term?
    ///
    /// The provided method knows no error term and compares exactly.
    fn default_ne(&self, other: &Self) -> (r: bool)
        default_ensures
            Self::obeys_eq_spec() ==> r == !self.eq_spec(other),
    {
        self != other
    }
}

} // verus!
