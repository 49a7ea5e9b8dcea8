//! Additive monoids.
//!
//! An additive monoid is an additive semigroup `S` with an identity
//! element for addition, called zero and written `0`.
//!
//! # Axioms
//!
//! 1. Semigroup: the additive semigroup axioms hold.
//! 2. Identity: ∃0 ∈ S, ∀x ∈ S, 0+x = x+0 = x.

use vstd::prelude::*;
use vstd::std_specs::cmp::PartialEqSpec;
use crate::magma::add_magma::AddMagma;
use crate::semigroup::add_semigroup::AddSemigroup;
use crate::semigroup::add_semigroup::NumAddSemigroup;

verus! {

/// An algebraic additive monoid.
pub trait AddMonoid: AddSemigroup {
    /// The zero (additive identity) element.
    spec fn zero_spec() -> Self;

    /// The zero (additive identity) element. It is a function, not
    /// a constant, so that types whose values cannot be constants can
    /// have one.
    fn zero() -> (r: Self)
        ensures
            r == Self::zero_spec(),
    ;

    /// Test for the zero (additive identity) element.
    fn is_zero(&self) -> (r: bool)
        ensures
            Self::obeys_eq_spec() ==> r == self.eq_spec(&Self::zero_spec()),
    {
        *self == Self::zero()
    }

    /// Test the left additive identity axiom.
    fn axiom_left_add_identity(x: &Self) -> (holds: bool)
        ensures
            Self::obeys_eq_spec() ==> holds == Self::zero_spec().add_spec(x).eq_spec(x),
    {
        Self::zero().add(x) == *x
    }

    /// Test the right additive identity axiom.
    fn axiom_right_add_identity(&self) -> (holds: bool)
        ensures
            Self::obeys_eq_spec() ==> holds == self.add_spec(&Self::zero_spec()).eq_spec(self),
    {
        self.add(&Self::zero()) == *self
    }
}

/// A numeric algebraic additive monoid.
///
/// For types that form an additive monoid only when values are
/// compared numerically, such as floating point types.
pub trait NumAddMonoid: NumAddSemigroup {
    /// The zero (additive identity) element.
    spec fn zero_spec() -> Self;

    /// The zero (additive identity) element. It is a function, not
    /// a constant, so that types whose values cannot be constants can
    /// have one.
    fn zero() -> (r: Self)
        ensures
            r == Self::zero_spec(),
    ;

    /// Test for the zero (additive identity) element, exactly.
    fn is_zero(&self) -> (r: bool)
        ensures
            Self::obeys_eq_spec() ==> r == self.eq_spec(&Self::zero_spec()),
    {
        *self == Self::zero()
    }

    /// Numerically test the left additive identity axiom.
    fn axiom_left_add_identity(&self, eps: &Self::Error) -> (holds: bool)
        ensures
            holds == Self::zero_spec().add_spec(self).num_eq_spec(self, eps),
    {
        Self::zero().add(self).num_eq(self, eps)
    }

    /// Numerically test the right additive identity axiom.
    fn axiom_right_add_identity(&self, eps: &Self::Error) -> (holds: bool)
        ensures
            holds == self.add_spec(&Self::zero_spec()).num_eq_spec(self, eps),
    {
        self.add(&Self::zero()).num_eq(self, eps)
    }
}

impl AddMonoid for u8 {
    open spec fn zero_spec() -> Self {
        0
    }

    fn zero() -> Self {
        0
    }
}

/// On `u8`, zero is a left and a right identity of wrapping addition.
pub proof fn lemma_u8_add_identity(x: u8)
    ensures
        u8::zero_spec().add_spec(&x) == x,
        x.add_spec(&u8::zero_spec()) == x,
{
}

impl AddMonoid for u16 {
    open spec fn zero_spec() -> Self {
        0
    }

    fn zero() -> Self {
        0
    }
}

/// On `u16`, zero is a left and a right identity of wrapping addition.
pub proof fn lemma_u16_add_identity(x: u16)
    ensures
        u16::zero_spec().add_spec(&x) == x,
        x.add_spec(&u16::zero_spec()) == x,
{
}

impl AddMonoid for u32 {
    open spec fn zero_spec() -> Self {
        0
    }

    fn zero() -> Self {
        0
    }
}

/// On `u32`, zero is a left and a right identity of wrapping addition.
pub proof fn lemma_u32_add_identity(x: u32)
    ensures
        u32::zero_spec().add_spec(&x) == x,
        x.add_spec(&u32::zero_spec()) == x,
{
}

impl AddMonoid for u64 {
    open spec fn zero_spec() -> Self {
        0
    }

    fn zero() -> Self {
        0
    }
}

/// On `u64`, zero is a left and a right identity of wrapping addition.
pub proof fn lemma_u64_add_identity(x: u64)
    ensures
        u64::zero_spec().add_spec(&x) == x,
        x.add_spec(&u64::zero_spec()) == x,
{
}

impl AddMonoid for u128 {
    open spec fn zero_spec() -> Self {
        0
    }

    fn zero() -> Self {
        0
    }
}

/// On `u128`, zero is a left and a right identity of wrapping addition.
pub proof fn lemma_u128_add_identity(x: u128)
    ensures
        u128::zero_spec().add_spec(&x) == x,
        x.add_spec(&u128::zero_spec()) == x,
{
}

impl AddMonoid for usize {
    open spec fn zero_spec() -> Self {
        0
    }

    fn zero() -> Self {
        0
    }
}

/// On `usize`, zero is a left and a right identity of wrapping addition.
pub proof fn lemma_usize_add_identity(x: usize)
    ensures
        usize::zero_spec().add_spec(&x) == x,
        x.add_spec(&usize::zero_spec()) == x,
{
}

impl AddMonoid for i8 {
    open spec fn zero_spec() -> Self {
        0
    }

    fn zero() -> Self {
        0
    }
}

/// On `i8`, zero is a left and a right identity of wrapping addition.
pub proof fn lemma_i8_add_identity(x: i8)
    ensures
        i8::zero_spec().add_spec(&x) == x,
        x.add_spec(&i8::zero_spec()) == x,
{
}

impl AddMonoid for i16 {
    open spec fn zero_spec() -> Self {
        0
    }

    fn zero() -> Self {
        0
    }
}

/// On `i16`, zero is a left and a right identity of wrapping addition.
pub proof fn lemma_i16_add_identity(x: i16)
    ensures
        i16::zero_spec().add_spec(&x) == x,
        x.add_spec(&i16::zero_spec()) == x,
{
}

impl AddMonoid for i32 {
    open spec fn zero_spec() -> Self {
        0
    }

    fn zero() -> Self {
        0
    }
}

/// On `i32`, zero is a left and a right identity of wrapping addition.
pub proof fn lemma_i32_add_identity(x: i32)
    ensures
        i32::zero_spec().add_spec(&x) == x,
        x.add_spec(&i32::zero_spec()) == x,
{
}

impl AddMonoid for i64 {
    open spec fn zero_spec() -> Self {
        0
    }

    fn zero() -> Self {
        0
    }
}

/// On `i64`, zero is a left and a right identity of wrapping addition.
pub proof fn lemma_i64_add_identity(x: i64)
    ensures
        i64::zero_spec().add_spec(&x) == x,
        x.add_spec(&i64::zero_spec()) == x,
{
}

impl AddMonoid for i128 {
    open spec fn zero_spec() -> Self {
        0
    }

    fn zero() -> Self {
        0
    }
}

/// On `i128`, zero is a left and a right identity of wrapping addition.
pub proof fn lemma_i128_add_identity(x: i128)
    ensures
        i128::zero_spec().add_spec(&x) == x,
        x.add_spec(&i128::zero_spec()) == x,
{
}

impl AddMonoid for isize {
    open spec fn zero_spec() -> Self {
        0
    }

    fn zero() -> Self {
        0
    }
}

/// On `isize`, zero is a left and a right identity of wrapping addition.
pub proof fn lemma_isize_add_identity(x: isize)
    ensures
        isize::zero_spec().add_spec(&x) == x,
        x.add_spec(&isize::zero_spec()) == x,
{
}

} // verus!
