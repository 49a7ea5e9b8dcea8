//! Multiplicative groups.
//!
//! A multiplicative group is a multiplicative monoid `S` in which each
//! invertible element `g` has a multiplicative inverse `g^-1`. Taking
//! the inverse is called inversion.
//!
//! # Axioms
//!
//! 1. Monoid: the multiplicative monoid axioms hold.
//! 2. Inverse: ∀g ∈ S, ∃g^-1 ∈ S, g * g^-1 = g^-1 * g = 1.

use vstd::prelude::*;
use vstd::std_specs::cmp::PartialEqSpec;
use crate::monoid::mul_monoid::MulMonoid;
use crate::monoid::mul_monoid::NumMulMonoid;

verus! {

/// The failure of an inversion or a division: the value to invert has
/// no multiplicative inverse.
#[derive(Clone, Copy, Debug, PartialEq, Eq)]
pub struct NotInvertible;

/// An algebraic multiplicative group.
pub trait MulGroup: MulMonoid {
    /// Whether `g` has a multiplicative inverse.
    spec fn is_invertible_spec(&self) -> bool;

    /// The value of `g^-1`, for an invertible `g`.
    spec fn invert_spec(&self) -> Self;

    /// The multiplicative inverse of a group element. Only an
    /// invertible element has one.
    fn invert(&self) -> (r: Self)
        requires
            self.is_invertible_spec(),
        ensures
            r == self.invert_spec(),
    ;

    /// Test for an invertible group element.
    fn is_invertible(&self) -> (r: bool)
        ensures
            r == self.is_invertible_spec(),
    ;

    /// The division of two group elements: `x * y^-1`.
    fn div(&self, other: &Self) -> (r: Self)
        requires
            other.is_invertible_spec(),
        ensures
            r == self.mul_spec(&other.invert_spec()),
    {
        self.mul(&other.invert())
    }

    /// The multiplicative inverse of a group element, or the failure
    /// if it has none.
    fn checked_invert(&self) -> (r: Result<Self, NotInvertible>)
        ensures
            self.is_invertible_spec() ==> r == Ok::<Self, NotInvertible>(self.invert_spec()),
            !self.is_invertible_spec() ==> r == Err::<Self, NotInvertible>(NotInvertible),
    {
        if self.is_invertible() {
            Ok(self.invert())
        } else {
            Err(NotInvertible)
        }
    }

    /// The division of two group elements, or the failure if the
    /// divisor has no inverse.
    fn checked_div(&self, other: &Self) -> (r: Result<Self, NotInvertible>)
        ensures
            other.is_invertible_spec() ==> r == Ok::<Self, NotInvertible>(
                self.mul_spec(&other.invert_spec()),
            ),
            !other.is_invertible_spec() ==> r == Err::<Self, NotInvertible>(NotInvertible),
    {
        if other.is_invertible() {
            Ok(self.mul(&other.invert()))
        } else {
            Err(NotInvertible)
        }
    }

    /// Test the left axiom of inversion.
    fn axiom_left_invert(&self) -> (holds: bool)
        requires
            self.is_invertible_spec(),
        ensures
            Self::obeys_eq_spec() ==> holds == self.invert_spec().mul_spec(self).eq_spec(
                &Self::one_spec(),
            ),
    {
        self.invert().mul(self) == Self::one()
    }

    /// Test the right axiom of inversion.
    fn axiom_right_invert(&self) -> (holds: bool)
        requires
            self.is_invertible_spec(),
        ensures
            Self::obeys_eq_spec() ==> holds == self.mul_spec(&self.invert_spec()).eq_spec(
                &Self::one_spec(),
            ),
    {
        self.mul(&self.invert()) == Self::one()
    }
}

/// A numeric algebraic multiplicative group.
///
/// For types that form a multiplicative group only when values are
/// compared numerically, such as floating point types.
pub trait NumMulGroup: NumMulMonoid {
    /// Whether `g` has a multiplicative inverse.
    spec fn is_invertible_spec(&self) -> bool;

    /// The value of `g^-1`, for an invertible `g`.
    spec fn invert_spec(&self) -> Self;

    /// The multiplicative inverse of a group element. Only an
    /// invertible element has one.
    fn invert(&self) -> (r: Self)
        requires
            self.is_invertible_spec(),
        ensures
            r == self.invert_spec(),
    ;

    /// Test for an invertible group element.
    fn is_invertible(&self) -> (r: bool)
        ensures
            r == self.is_invertible_spec(),
    ;

    /// The division of two group elements: `x * y^-1`.
    fn div(&self, other: &Self) -> (r: Self)
        requires
            other.is_invertible_spec(),
        ensures
            r == self.mul_spec(&other.invert_spec()),
    {
        self.mul(&other.invert())
    }

    /// The multiplicative inverse of a group element, or the failure
    /// if it has none.
    fn checked_invert(&self) -> (r: Result<Self, NotInvertible>)
        ensures
            self.is_invertible_spec() ==> r == Ok::<Self, NotInvertible>(self.invert_spec()),
            !self.is_invertible_spec() ==> r == Err::<Self, NotInvertible>(NotInvertible),
    {
        if self.is_invertible() {
            Ok(self.invert())
        } else {
            Err(NotInvertible)
        }
    }

    /// The division of two group elements, or the failure if the
    /// divisor has no inverse.
    fn checked_div(&self, other: &Self) -> (r: Result<Self, NotInvertible>)
        ensures
            other.is_invertible_spec() ==> r == Ok::<Self, NotInvertible>(
                self.mul_spec(&other.invert_spec()),
            ),
            !other.is_invertible_spec() ==> r == Err::<Self, NotInvertible>(NotInvertible),
    {
        if other.is_invertible() {
            Ok(self.mul(&other.invert()))
        } else {
            Err(NotInvertible)
        }
    }

    /// Numerically test the left axiom of inversion.
    fn axiom_left_invert(&self, eps: &Self::Error) -> (holds: bool)
        requires
            self.is_invertible_spec(),
        ensures
            holds == self.invert_spec().mul_spec(self).num_eq_spec(&Self::one_spec(), eps),
    {
        self.invert().mul(self).num_eq(&Self::one(), eps)
    }

    /// Numerically test the right axiom of inversion.
    fn axiom_right_invert(&self, eps: &Self::Error) -> (holds: bool)
        requires
            self.is_invertible_spec(),
        ensures
            holds == self.mul_spec(&self.invert_spec()).num_eq_spec(&Self::one_spec(), eps),
    {
        self.mul(&self.invert()).num_eq(&Self::one(), eps)
    }
}

} // verus!
