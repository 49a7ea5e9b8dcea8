//! Multiplicative magmas.
//!
//! A multiplicative magma is a set `S` with a binary operation `*`,
//! called multiplication.
//!
//! # Axioms
//!
//! 1. Closure: ∀x, y ∈ S, x*y ∈ S.

use vstd::prelude::*;
use crate::numeric::equal::NumEq;
use crate::types::NumPair;
use crate::types::Pair;

verus! {

/// An algebraic multiplicative magma.
pub trait MulMagma: Sized + PartialEq {
    /// The value of `x*y`.
    spec fn mul_spec(&self, other: &Self) -> Self;

    /// The magma multiplication operation.
    fn mul(&self, other: &Self) -> (r: Self)
        ensures
            r == self.mul_spec(other),
    ;

    /// Test the axiom of closure. The operation returns a `Self`, so
    /// the axiom holds of every pair.
    fn axiom_mul_closure(_xs: Pair<Self>) -> (holds: bool)
        ensures
            holds,
    {
        true
    }
}

/// A numeric algebraic multiplicative magma.
///
/// For types that form a multiplicative magma only when values are
/// compared numerically, such as floating point types.
pub trait NumMulMagma: Sized + NumEq {
    /// The value of `x*y`.
    spec fn mul_spec(&self, other: &Self) -> Self;

    /// The magma multiplication operation.
    fn mul(&self, other: &Self) -> (r: Self)
        ensures
            r == self.mul_spec(other),
    ;

    /// Numerically test the axiom of closure. The operation returns a
    /// `Self`, so the axiom holds of every pair.
    fn axiom_mul_closure(_xs: NumPair<Self>) -> (holds: bool)
        ensures
            holds,
    {
        true
    }
}

// The built-in integer types are finite, so they are closed under
// multiplication only if it wraps around at the bounds of the type.

impl MulMagma for u8 {
    open spec fn mul_spec(&self, other: &Self) -> Self {
        self.wrapping_mul(*other)
    }

    /// Wrapping multiplication.
    fn mul(&self, other: &Self) -> Self {
        self.wrapping_mul(*other)
    }
}

impl MulMagma for u16 {
    open spec fn mul_spec(&self, other: &Self) -> Self {
        self.wrapping_mul(*other)
    }

    /// Wrapping multiplication.
    fn mul(&self, other: &Self) -> Self {
        self.wrapping_mul(*other)
    }
}

impl MulMagma for u32 {
    open spec fn mul_spec(&self, other: &Self) -> Self {
        self.wrapping_mul(*other)
    }

    /// Wrapping multiplication.
    fn mul(&self, other: &Self) -> Self {
        self.wrapping_mul(*other)
    }
}

impl MulMagma for u64 {
    open spec fn mul_spec(&self, other: &Self) -> Self {
        self.wrapping_mul(*other)
    }

    /// Wrapping multiplication.
    fn mul(&self, other: &Self) -> Self {
        self.wrapping_mul(*other)
    }
}

impl MulMagma for u128 {
    open spec fn mul_spec(&self, other: &Self) -> Self {
        self.wrapping_mul(*other)
    }

    /// Wrapping multiplication.
    fn mul(&self, other: &Self) -> Self {
        self.wrapping_mul(*other)
    }
}

impl MulMagma for usize {
    open spec fn mul_spec(&self, other: &Self) -> Self {
        self.wrapping_mul(*other)
    }

    /// Wrapping multiplication.
    fn mul(&self, other: &Self) -> Self {
        self.wrapping_mul(*other)
    }
}

impl MulMagma for i8 {
    open spec fn mul_spec(&self, other: &Self) -> Self {
        self.wrapping_mul(*other)
    }

    /// Wrapping multiplication.
    fn mul(&self, other: &Self) -> Self {
        self.wrapping_mul(*other)
    }
}

impl MulMagma for i16 {
    open spec fn mul_spec(&self, other: &Self) -> Self {
        self.wrapping_mul(*other)
    }

    /// Wrapping multiplication.
    fn mul(&self, other: &Self) -> Self {
        self.wrapping_mul(*other)
    }
}

impl MulMagma for i32 {
    open spec fn mul_spec(&self, other: &Self) -> Self {
        self.wrapping_mul(*other)
    }

    /// Wrapping multiplication.
    fn mul(&self, other: &Self) -> Self {
        self.wrapping_mul(*other)
    }
}

impl MulMagma for i64 {
    open spec fn mul_spec(&self, other: &Self) -> Self {
        self.wrapping_mul(*other)
    }

    /// Wrapping multiplication.
    fn mul(&self, other: &Self) -> Self {
        self.wrapping_mul(*other)
    }
}

impl MulMagma for i128 {
    open spec fn mul_spec(&self, other: &Self) -> Self {
        self.wrapping_mul(*other)
    }

    /// Wrapping multiplication.
    fn mul(&self, other: &Self) -> Self {
        self.wrapping_mul(*other)
    }
}

impl MulMagma for isize {
    open spec fn mul_spec(&self, other: &Self) -> Self {
        self.wrapping_mul(*other)
    }

    /// Wrapping multiplication.
    fn mul(&self, other: &Self) -> Self {
        self.wrapping_mul(*other)
    }
}

} // verus!
