//! Fields.
//!
//! A field is a commutative ring `F` in which each invertible element
//! `f` has a multiplicative inverse `f^-1`. In a field the invertible
//! elements are those that differ from zero; a type says through
//! `is_invertible_spec` which of its values it inverts.
//!
//! # Axioms
//!
//! 1. Ring: the commutative ring axioms hold.
//! 2. Inverse: ∀f ∈ F, f ≠ 0 ⇒ ∃f^-1 ∈ F, f*f^-1 = f^-1*f = 1.
//!
//! # Properties
//!
//! The `prop_` predicates test facts that follow from the axioms: a
//! field has no zero divisors, and addition and multiplication by a
//! value other than zero can be cancelled.

use vstd::prelude::*;
use vstd::std_specs::cmp::PartialEqSpec;
use crate::com_ring::com_ring::ComRing;
use crate::com_ring::com_ring::NumComRing;
use crate::group::mul_group::NotInvertible;
use crate::types::NumPair;
use crate::types::NumTriple;
use crate::types::Pair;
use crate::types::Triple;

verus! {

/// An algebraic field.
pub trait Field: ComRing {
    /// Whether `f` has a multiplicative inverse.
    spec fn is_invertible_spec(&self) -> bool;

    /// The value of `f^-1`, for an invertible `f`.
    spec fn invert_spec(&self) -> Self;

    /// The multiplicative inverse of a field element. Only an
    /// invertible element has one.
    fn invert(&self) -> (r: Self)
        requires
            self.is_invertible_spec(),
        ensures
            r == self.invert_spec(),
    ;

    /// Test for an invertible field element.
    fn is_invertible(&self) -> (r: bool)
        ensures
            r == self.is_invertible_spec(),
    ;

    /// The division of two field elements: `x * y^-1`.
    fn div(&self, other: &Self) -> (r: Self)
        requires
            other.is_invertible_spec(),
        ensures
            r == self.mul_spec(&other.invert_spec()),
    {
        self.mul(&other.invert())
    }

    /// The multiplicative inverse of a field element, or the failure
    /// if it has none.
    fn checked_invert(&self) -> (r: Result<Self, NotInvertible>)
        ensures
            self.is_invertible_spec() ==> r == Ok::<Self, NotInvertible>(self.invert_spec()),
            !self.is_invertible_spec() ==> r == Err::<Self, NotInvertible>(NotInvertible),
    {
        if self.is_invertible() {
            Ok(self.invert())
        } else {
            Err(NotInvertible)
        }
    }

    /// The division of two field elements, or the failure if the
    /// divisor has no inverse.
    fn checked_div(&self, other: &Self) -> (r: Result<Self, NotInvertible>)
        ensures
            other.is_invertible_spec() ==> r == Ok::<Self, NotInvertible>(
                self.mul_spec(&other.invert_spec()),
            ),
            !other.is_invertible_spec() ==> r == Err::<Self, NotInvertible>(NotInvertible),
    {
        if other.is_invertible() {
            Ok(self.mul(&other.invert()))
        } else {
            Err(NotInvertible)
        }
    }

    /// Test the left axiom of inversion.
    fn axiom_left_invert(&self) -> (holds: bool)
        requires
            self.is_invertible_spec(),
        ensures
            Self::obeys_eq_spec() ==> holds == self.invert_spec().mul_spec(self).eq_spec(
                &Self::one_spec(),
            ),
    {
        self.invert().mul(self) == Self::one()
    }

    /// Test the right axiom of inversion.
    fn axiom_right_invert(&self) -> (holds: bool)
        requires
            self.is_invertible_spec(),
        ensures
            Self::obeys_eq_spec() ==> holds == self.mul_spec(&self.invert_spec()).eq_spec(
                &Self::one_spec(),
            ),
    {
        self.mul(&self.invert()) == Self::one()
    }

    /// Test the property that a product is zero only if a factor is.
    fn prop_mul_zero(xs: Pair<Self>) -> (holds: bool)
        ensures
            Self::obeys_eq_spec() ==> holds == (xs.0.mul_spec(xs.1).eq_spec(&Self::zero_spec())
                ==> xs.0.eq_spec(&Self::zero_spec()) || xs.1.eq_spec(&Self::zero_spec())),
    {
        let (x, y) = xs;

        crate::logic::implies(x.mul(y).is_zero(), x.is_zero() || y.is_zero())
    }

    /// Test the property of additive cancellation: `x + y = z + y`
    /// only if `x = z`.
    fn prop_add_cancel(xs: Triple<Self>) -> (holds: bool)
        ensures
            Self::obeys_eq_spec() ==> holds == (xs.0.add_spec(xs.1).eq_spec(
                &xs.2.add_spec(xs.1),
            ) ==> xs.0.eq_spec(xs.2)),
    {
        let (x, y, z) = xs;

        crate::logic::implies(x.add(y) == z.add(y), *x == *z)
    }

    /// Test the property of multiplicative cancellation: for a `y`
    /// other than zero, `x * y = z * y` only if `x = z`.
    fn prop_mul_cancel(xs: Triple<Self>) -> (holds: bool)
        ensures
            Self::obeys_eq_spec() ==> holds == (!xs.1.eq_spec(&Self::zero_spec())
                && xs.0.mul_spec(xs.1).eq_spec(&xs.2.mul_spec(xs.1)) ==> xs.0.eq_spec(xs.2)),
    {
        let (x, y, z) = xs;

        crate::logic::implies(!y.is_zero() && x.mul(y) == z.mul(y), *x == *z)
    }
}

/// A numeric algebraic field.
///
/// For types that form a field only when values are compared
/// numerically, such as floating point types.
pub trait NumField: NumComRing {
    /// Whether `f` has a multiplicative inverse.
    spec fn is_invertible_spec(&self) -> bool;

    /// The value of `f^-1`, for an invertible `f`.
    spec fn invert_spec(&self) -> Self;

    /// The multiplicative inverse of a field element. Only an
    /// invertible element has one.
    fn invert(&self) -> (r: Self)
        requires
            self.is_invertible_spec(),
        ensures
            r == self.invert_spec(),
    ;

    /// Test for an invertible field element.
    fn is_invertible(&self) -> (r: bool)
        ensures
            r == self.is_invertible_spec(),
    ;

    /// The division of two field elements: `x * y^-1`.
    fn div(&self, other: &Self) -> (r: Self)
        requires
            other.is_invertible_spec(),
        ensures
            r == self.mul_spec(&other.invert_spec()),
    {
        self.mul(&other.invert())
    }

    /// The multiplicative inverse of a field element, or the failure
    /// if it has none.
    fn checked_invert(&self) -> (r: Result<Self, NotInvertible>)
        ensures
            self.is_invertible_spec() ==> r == Ok::<Self, NotInvertible>(self.invert_spec()),
            !self.is_invertible_spec() ==> r == Err::<Self, NotInvertible>(NotInvertible),
    {
        if self.is_invertible() {
            Ok(self.invert())
        } else {
            Err(NotInvertible)
        }
    }

    /// The division of two field elements, or the failure if the
    /// divisor has no inverse.
    fn checked_div(&self, other: &Self) -> (r: Result<Self, NotInvertible>)
        ensures
            other.is_invertible_spec() ==> r == Ok::<Self, NotInvertible>(
                self.mul_spec(&other.invert_spec()),
            ),
            !other.is_invertible_spec() ==> r == Err::<Self, NotInvertible>(NotInvertible),
    {
        if other.is_invertible() {
            Ok(self.mul(&other.invert()))
        } else {
            Err(NotInvertible)
        }
    }

    /// Numerically test the left axiom of inversion.
    fn axiom_left_invert(&self, eps: &Self::Error) -> (holds: bool)
        requires
            self.is_invertible_spec(),
        ensures
            holds == self.invert_spec().mul_spec(self).num_eq_spec(&Self::one_spec(), eps),
    {
        self.invert().mul(self).num_eq(&Self::one(), eps)
    }

    /// Numerically test the right axiom of inversion.
    fn axiom_right_invert(&self, eps: &Self::Error) -> (holds: bool)
        requires
            self.is_invertible_spec(),
        ensures
            holds == self.mul_spec(&self.invert_spec()).num_eq_spec(&Self::one_spec(), eps),
    {
        self.mul(&self.invert()).num_eq(&Self::one(), eps)
    }

    /// Test the property that a product is zero only if a factor is.
    /// Zero is tested for exactly, so the error term plays no part.
    fn prop_mul_zero(xs: NumPair<Self>) -> (holds: bool)
        ensures
            Self::obeys_eq_spec() ==> holds == (xs.0.mul_spec(xs.1).eq_spec(&Self::zero_spec())
                ==> xs.0.eq_spec(&Self::zero_spec()) || xs.1.eq_spec(&Self::zero_spec())),
    {
        let (x, y, _) = xs;

        crate::logic::implies(x.mul(y).is_zero(), x.is_zero() || y.is_zero())
    }

    /// Numerically test the property of additive cancellation:
    /// `x + y = z + y` only if `x = z`.
    fn prop_add_cancel(xs: NumTriple<Self>) -> (holds: bool)
        ensures
            holds == (xs.0.add_spec(xs.1).num_eq_spec(&xs.2.add_spec(xs.1), xs.3)
                ==> xs.0.num_eq_spec(xs.2, xs.3)),
    {
        let (x, y, z, eps) = xs;

        crate::logic::implies(x.add(y).num_eq(&z.add(y), eps), x.num_eq(z, eps))
    }

    /// Numerically test the property of multiplicative cancellation:
    /// for a `y` that differs from zero exactly, `x * y = z * y` only
    /// if `x = z`.
    fn prop_mul_cancel(xs: NumTriple<Self>) -> (holds: bool)
        ensures
            Self::obeys_eq_spec() ==> holds == (!xs.1.eq_spec(&Self::zero_spec())
                && xs.0.mul_spec(xs.1).num_eq_spec(&xs.2.mul_spec(xs.1), xs.3)
                ==> xs.0.num_eq_spec(xs.2, xs.3)),
    {
        let (x, y, z, eps) = xs;
        let x_eq_z = x.num_eq(z, eps);

        crate::logic::implies(!y.is_zero() && x.mul(y).num_eq(&z.mul(y), eps), x_eq_z)
    }
}

} // verus!
