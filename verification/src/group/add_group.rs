//! Additive groups.
//!
//! An additive group is an additive monoid `S` in which each element
//! `g` has an additive inverse `-g`. Taking the inverse is called
//! negation.
//!
//! # Axioms
//!
//! 1. Monoid: the additive monoid axioms hold.
//! 2. Inverse: ∀g ∈ S, ∃-g ∈ S, g + -g = -g + g = 0.

use vstd::prelude::*;
use vstd::std_specs::cmp::PartialEqSpec;
use crate::magma::add_magma::AddMagma;
use crate::monoid::add_monoid::AddMonoid;
use crate::monoid::add_monoid::NumAddMonoid;

verus! {

/// An algebraic additive group.
pub trait AddGroup: AddMonoid {
    /// The value of `-g`.
    spec fn negate_spec(&self) -> Self;

    /// The additive inverse of a group element. Every element has
    /// one.
    fn negate(&self) -> (r: Self)
        ensures
            r == self.negate_spec(),
    ;

    /// The subtraction of two group elements: `x + -y`.
    fn sub(&self, other: &Self) -> (r: Self)
        ensures
            r == self.add_spec(&other.negate_spec()),
    {
        self.add(&other.negate())
    }

    /// Test the left axiom of negation.
    fn axiom_left_negate(&self) -> (holds: bool)
        ensures
            Self::obeys_eq_spec() ==> holds == self.negate_spec().add_spec(self).eq_spec(
                &Self::zero_spec(),
            ),
    {
        self.negate().add(self) == Self::zero()
    }

    /// Test the right axiom of negation.
    fn axiom_right_negate(&self) -> (holds: bool)
        ensures
            Self::obeys_eq_spec() ==> holds == self.add_spec(&self.negate_spec()).eq_spec(
                &Self::zero_spec(),
            ),
    {
        self.add(&self.negate()) == Self::zero()
    }
}

/// A numeric algebraic additive group.
///
/// For types that form an additive group only when values are
/// compared numerically, such as floating point types.
pub trait NumAddGroup: NumAddMonoid {
    /// The value of `-g`.
    spec fn negate_spec(&self) -> Self;

    /// The additive inverse of a group element. Every element has
    /// one.
    fn negate(&self) -> (r: Self)
        ensures
            r == self.negate_spec(),
    ;

    /// The subtraction of two group elements: `x + -y`.
    fn sub(&self, other: &Self) -> (r: Self)
        ensures
            r == self.add_spec(&other.negate_spec()),
    {
        self.add(&other.negate())
    }

    /// Numerically test the left axiom of negation.
    fn axiom_left_negate(&self, eps: &Self::Error) -> (holds: bool)
        ensures
            holds == self.negate_spec().add_spec(self).num_eq_spec(&Self::zero_spec(), eps),
    {
        self.negate().add(self).num_eq(&Self::zero(), eps)
    }

    /// Numerically test the right axiom of negation.
    fn axiom_right_negate(&self, eps: &Self::Error) -> (holds: bool)
        ensures
            holds == self.add_spec(&self.negate_spec()).num_eq_spec(&Self::zero_spec(), eps),
    {
        self.add(&self.negate()).num_eq(&Self::zero(), eps)
    }
}

// The signed integer types form additive groups under wrapping
// negation.

impl AddGroup for i8 {
    open spec fn negate_spec(&self) -> Self {
        0i8.wrapping_sub(*self)
    }

    /// Wrapping negation: zero minus the value, wrapping around at
    /// the bounds of the type, so that the least value is its own
    /// negation.
    fn negate(&self) -> Self {
        0i8.wrapping_sub(*self)
    }
}

/// On `i8`, the wrapping negation of a value is its left and its
/// right inverse under wrapping addition.
pub proof fn lemma_i8_negate_inverse(x: i8)
    ensures
        x.negate_spec().add_spec(&x) == i8::zero_spec(),
        x.add_spec(&x.negate_spec()) == i8::zero_spec(),
{
}

/// On `i8`, negating twice gives the value back.
pub proof fn lemma_i8_negate_involutive(x: i8)
    ensures
        x.negate_spec().negate_spec() == x,
{
}

impl AddGroup for i16 {
    open spec fn negate_spec(&self) -> Self {
        0i16.wrapping_sub(*self)
    }

    /// Wrapping negation: zero minus the value, wrapping around at
    /// the bounds of the type, so that the least value is its own
    /// negation.
    fn negate(&self) -> Self {
        0i16.wrapping_sub(*self)
    }
}

/// On `i16`, the wrapping negation of a value is its left and its
/// right inverse under wrapping addition.
pub proof fn lemma_i16_negate_inverse(x: i16)
    ensures
        x.negate_spec().add_spec(&x) == i16::zero_spec(),
        x.add_spec(&x.negate_spec()) == i16::zero_spec(),
{
}

/// On `i16`, negating twice gives the value back.
pub proof fn lemma_i16_negate_involutive(x: i16)
    ensures
        x.negate_spec().negate_spec() == x,
{
}

impl AddGroup for i32 {
    open spec fn negate_spec(&self) -> Self {
        0i32.wrapping_sub(*self)
    }

    /// Wrapping negation: zero minus the value, wrapping around at
    /// the bounds of the type, so that the least value is its own
    /// negation.
    fn negate(&self) -> Self {
        0i32.wrapping_sub(*self)
    }
}

/// On `i32`, the wrapping negation of a value is its left and its
/// right inverse under wrapping addition.
pub proof fn lemma_i32_negate_inverse(x: i32)
    ensures
        x.negate_spec().add_spec(&x) == i32::zero_spec(),
        x.add_spec(&x.negate_spec()) == i32::zero_spec(),
{
}

/// On `i32`, negating twice gives the value back.
pub proof fn lemma_i32_negate_involutive(x: i32)
    ensures
        x.negate_spec().negate_spec() == x,
{
}

impl AddGroup for i64 {
    open spec fn negate_spec(&self) -> Self {
        0i64.wrapping_sub(*self)
    }

    /// Wrapping negation: zero minus the value, wrapping around at
    /// the bounds of the type, so that the least value is its own
    /// negation.
    fn negate(&self) -> Self {
        0i64.wrapping_sub(*self)
    }
}

/// On `i64`, the wrapping negation of a value is its left and its
/// right inverse under wrapping addition.
pub proof fn lemma_i64_negate_inverse(x: i64)
    ensures
        x.negate_spec().add_spec(&x) == i64::zero_spec(),
        x.add_spec(&x.negate_spec()) == i64::zero_spec(),
{
}

/// On `i64`, negating twice gives the value back.
pub proof fn lemma_i64_negate_involutive(x: i64)
    ensures
        x.negate_spec().negate_spec() == x,
{
}

impl AddGroup for i128 {
    open spec fn negate_spec(&self) -> Self {
        0i128.wrapping_sub(*self)
    }

    /// Wrapping negation: zero minus the value, wrapping around at
    /// the bounds of the type, so that the least value is its own
    /// negation.
    fn negate(&self) -> Self {
        0i128.wrapping_sub(*self)
    }
}

/// On `i128`, the wrapping negation of a value is its left and its
/// right inverse under wrapping addition.
pub proof fn lemma_i128_negate_inverse(x: i128)
    ensures
        x.negate_spec().add_spec(&x) == i128::zero_spec(),
        x.add_spec(&x.negate_spec()) == i128::zero_spec(),
{
}

/// On `i128`, negating twice gives the value back.
pub proof fn lemma_i128_negate_involutive(x: i128)
    ensures
        x.negate_spec().negate_spec() == x,
{
}

impl AddGroup for isize {
    open spec fn negate_spec(&self) -> Self {
        0isize.wrapping_sub(*self)
    }

    /// Wrapping negation: zero minus the value, wrapping around at
    /// the bounds of the type, so that the least value is its own
    /// negation.
    fn negate(&self) -> Self {
        0isize.wrapping_sub(*self)
    }
}

/// On `isize`, the wrapping negation of a value is its left and its
/// right inverse under wrapping addition.
pub proof fn lemma_isize_negate_inverse(x: isize)
    ensures
        x.negate_spec().add_spec(&x) == isize::zero_spec(),
        x.add_spec(&x.negate_spec()) == isize::zero_spec(),
{
}

/// On `isize`, negating twice gives the value back.
pub proof fn lemma_isize_negate_involutive(x: isize)
    ensures
        x.negate_spec().negate_spec() == x,
{
}

} // verus!
