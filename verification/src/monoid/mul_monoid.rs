//! Multiplicative monoids.
//!
//! A multiplicative monoid is a multiplicative semigroup `S` with an
//! identity element for multiplication, called one and written `1`.
//!
//! # Axioms
//!
//! 1. Semigroup: the multiplicative semigroup axioms hold.
//! 2. Identity: ∃1 ∈ S, ∀x ∈ S, 1*x = x*1 = x.

use vstd::prelude::*;
use vstd::arithmetic::div_mod::lemma_small_mod;
use vstd::std_specs::cmp::PartialEqSpec;
use crate::magma::mul_magma::MulMagma;
use crate::modular::lemma_signed_residue_of_small;
use crate::semigroup::mul_semigroup::MulSemigroup;
use crate::semigroup::mul_semigroup::NumMulSemigroup;

verus! {

/// An algebraic multiplicative monoid.
pub trait MulMonoid: MulSemigroup {
    /// The one (multiplicative identity) element.
    spec fn one_spec() -> Self;

    /// The one (multiplicative identity) element. It is a function, not
    /// a constant, so that types whose values cannot be constants can
    /// have one.
    fn one() -> (r: Self)
        ensures
            r == Self::one_spec(),
    ;

    /// Test for the one (multiplicative identity) element.
    fn is_one(&self) -> (r: bool)
        ensures
            Self::obeys_eq_spec() ==> r == self.eq_spec(&Self::one_spec()),
    {
        *self == Self::one()
    }

    /// Test the left multiplicative identity axiom.
    fn axiom_left_mul_identity(&self) -> (holds: bool)
        ensures
            Self::obeys_eq_spec() ==> holds == Self::one_spec().mul_spec(self).eq_spec(self),
    {
        Self::one().mul(self) == *self
    }

    /// Test the right multiplicative identity axiom.
    fn axiom_right_mul_identity(&self) -> (holds: bool)
        ensures
            Self::obeys_eq_spec() ==> holds == self.mul_spec(&Self::one_spec()).eq_spec(self),
    {
        self.mul(&Self::one()) == *self
    }
}

/// A numeric algebraic multiplicative monoid.
///
/// For types that form a multiplicative monoid only when values are
/// compared numerically, such as floating point types.
pub trait NumMulMonoid: NumMulSemigroup {
    /// The one (multiplicative identity) element.
    spec fn one_spec() -> Self;

    /// The one (multiplicative identity) element. It is a function, not
    /// a constant, so that types whose values cannot be constants can
    /// have one.
    fn one() -> (r: Self)
        ensures
            r == Self::one_spec(),
    ;

    /// Test for the one (multiplicative identity) element, exactly.
    fn is_one(&self) -> (r: bool)
        ensures
            Self::obeys_eq_spec() ==> r == self.eq_spec(&Self::one_spec()),
    {
        *self == Self::one()
    }

    /// Numerically test the left multiplicative identity axiom.
    fn axiom_left_mul_identity(&self, eps: &Self::Error) -> (holds: bool)
        ensures
            holds == Self::one_spec().mul_spec(self).num_eq_spec(self, eps),
    {
        Self::one().mul(self).num_eq(self, eps)
    }

    /// Numerically test the right multiplicative identity axiom.
    fn axiom_right_mul_identity(&self, eps: &Self::Error) -> (holds: bool)
        ensures
            holds == self.mul_spec(&Self::one_spec()).num_eq_spec(self, eps),
    {
        self.mul(&Self::one()).num_eq(self, eps)
    }
}

impl MulMonoid for u8 {
    open spec fn one_spec() -> Self {
        1
    }

    fn one() -> Self {
        1
    }
}

/// On `u8`, one is a left and a right identity of wrapping multiplication.
pub proof fn lemma_u8_mul_identity(x: u8)
    ensures
        u8::one_spec().mul_spec(&x) == x,
        x.mul_spec(&u8::one_spec()) == x,
{
}

impl MulMonoid for u16 {
    open spec fn one_spec() -> Self {
        1
    }

    fn one() -> Self {
        1
    }
}

/// On `u16`, one is a left and a right identity of wrapping multiplication.
pub proof fn lemma_u16_mul_identity(x: u16)
    ensures
        u16::one_spec().mul_spec(&x) == x,
        x.mul_spec(&u16::one_spec()) == x,
{
}

impl MulMonoid for u32 {
    open spec fn one_spec() -> Self {
        1
    }

    fn one() -> Self {
        1
    }
}

/// On `u32`, one is a left and a right identity of wrapping multiplication.
pub proof fn lemma_u32_mul_identity(x: u32)
    ensures
        u32::one_spec().mul_spec(&x) == x,
        x.mul_spec(&u32::one_spec()) == x,
{
}

impl MulMonoid for u64 {
    open spec fn one_spec() -> Self {
        1
    }

    fn one() -> Self {
        1
    }
}

/// On `u64`, one is a left and a right identity of wrapping multiplication.
pub proof fn lemma_u64_mul_identity(x: u64)
    ensures
        u64::one_spec().mul_spec(&x) == x,
        x.mul_spec(&u64::one_spec()) == x,
{
}

impl MulMonoid for u128 {
    open spec fn one_spec() -> Self {
        1
    }

    fn one() -> Self {
        1
    }
}

/// On `u128`, one is a left and a right identity of wrapping multiplication.
pub proof fn lemma_u128_mul_identity(x: u128)
    ensures
        u128::one_spec().mul_spec(&x) == x,
        x.mul_spec(&u128::one_spec()) == x,
{
}

impl MulMonoid for usize {
    open spec fn one_spec() -> Self {
        1
    }

    fn one() -> Self {
        1
    }
}

/// On `usize`, one is a left and a right identity of wrapping multiplication.
pub proof fn lemma_usize_mul_identity(x: usize)
    ensures
        usize::one_spec().mul_spec(&x) == x,
        x.mul_spec(&usize::one_spec()) == x,
{
    // The modulus of `usize` is no literal, so the solver needs the hint.
    lemma_small_mod(x as nat, (usize::MAX + 1) as nat);
}

impl MulMonoid for i8 {
    open spec fn one_spec() -> Self {
        1
    }

    fn one() -> Self {
        1
    }
}

/// On `i8`, one is a left and a right identity of wrapping multiplication.
pub proof fn lemma_i8_mul_identity(x: i8)
    ensures
        i8::one_spec().mul_spec(&x) == x,
        x.mul_spec(&i8::one_spec()) == x,
{
    lemma_signed_residue_of_small(x as int, 0x80);
}

impl MulMonoid for i16 {
    open spec fn one_spec() -> Self {
        1
    }

    fn one() -> Self {
        1
    }
}

/// On `i16`, one is a left and a right identity of wrapping multiplication.
pub proof fn lemma_i16_mul_identity(x: i16)
    ensures
        i16::one_spec().mul_spec(&x) == x,
        x.mul_spec(&i16::one_spec()) == x,
{
    lemma_signed_residue_of_small(x as int, 0x8000);
}

impl MulMonoid for i32 {
    open spec fn one_spec() -> Self {
        1
    }

    fn one() -> Self {
        1
    }
}

/// On `i32`, one is a left and a right identity of wrapping multiplication.
pub proof fn lemma_i32_mul_identity(x: i32)
    ensures
        i32::one_spec().mul_spec(&x) == x,
        x.mul_spec(&i32::one_spec()) == x,
{
    lemma_signed_residue_of_small(x as int, 0x8000_0000);
}

impl MulMonoid for i64 {
    open spec fn one_spec() -> Self {
        1
    }

    fn one() -> Self {
        1
    }
}

/// On `i64`, one is a left and a right identity of wrapping multiplication.
pub proof fn lemma_i64_mul_identity(x: i64)
    ensures
        i64::one_spec().mul_spec(&x) == x,
        x.mul_spec(&i64::one_spec()) == x,
{
    lemma_signed_residue_of_small(x as int, 0x8000_0000_0000_0000);
}

impl MulMonoid for i128 {
    open spec fn one_spec() -> Self {
        1
    }

    fn one() -> Self {
        1
    }
}

/// On `i128`, one is a left and a right identity of wrapping multiplication.
pub proof fn lemma_i128_mul_identity(x: i128)
    ensures
        i128::one_spec().mul_spec(&x) == x,
        x.mul_spec(&i128::one_spec()) == x,
{
    lemma_signed_residue_of_small(x as int, 0x8000_0000_0000_0000_0000_0000_0000_0000int);
}

impl MulMonoid for isize {
    open spec fn one_spec() -> Self {
        1
    }

    fn one() -> Self {
        1
    }
}

/// On `isize`, one is a left and a right identity of wrapping multiplication.
pub proof fn lemma_isize_mul_identity(x: isize)
    ensures
        isize::one_spec().mul_spec(&x) == x,
        x.mul_spec(&isize::one_spec()) == x,
{
    lemma_signed_residue_of_small(x as int, isize::MAX + 1);
}

} // verus!
