//! Additive magmas.
//!
//! An additive magma is a set `S` with a binary operation `+`, called
//! addition.
//!
//! # Axioms
//!
//! 1. Closure: ∀x, y ∈ S, x+y ∈ S.

use vstd::prelude::*;
use crate::numeric::equal::NumEq;
use crate::types::NumPair;
use crate::types::Pair;

verus! {

/// An algebraic additive magma.
pub trait AddMagma: Sized + PartialEq {
    /// The value of `x+y`.
    spec fn add_spec(&self, other: &Self) -> Self;

    /// The magma addition operation.
    fn add(&self, other: &Self) -> (r: Self)
        ensures
            r == self.add_spec(other),
    ;

    /// Test the axiom of closure. The operation returns a `Self`, so
    /// the axiom holds of every pair.
    fn axiom_add_closure(_xs: Pair<Self>) -> (holds: bool)
        ensures
            holds,
    {
        true
    }
}

/// A numeric algebraic additive magma.
///
/// For types that form an additive magma only when values are
/// compared numerically, such as floating point types.
pub trait NumAddMagma: Sized + NumEq {
    /// The value of `x+y`.
    spec fn add_spec(&self, other: &Self) -> Self;

    /// The magma addition operation.
    fn add(&self, other: &Self) -> (r: Self)
        ensures
            r == self.add_spec(other),
    ;

    /// Numerically test the axiom of closure. The operation returns a
    /// `Self`, so the axiom holds of every pair.
    fn axiom_add_closure(_xs: NumPair<Self>) -> (holds: bool)
        ensures
            holds,
    {
        true
    }
}

// The built-in integer types are finite, so they are closed under
// addition only if it wraps around at the bounds of the type.

impl AddMagma for u8 {
    open spec fn add_spec(&self, other: &Self) -> Self {
        self.wrapping_add(*other)
    }

    /// Wrapping addition.
    fn add(&self, other: &Self) -> Self {
        self.wrapping_add(*other)
    }
}

impl AddMagma for u16 {
    open spec fn add_spec(&self, other: &Self) -> Self {
        self.wrapping_add(*other)
    }

    /// Wrapping addition.
    fn add(&self, other: &Self) -> Self {
        self.wrapping_add(*other)
    }
}

impl AddMagma for u32 {
    open spec fn add_spec(&self, other: &Self) -> Self {
        self.wrapping_add(*other)
    }

    /// Wrapping addition.
    fn add(&self, other: &Self) -> Self {
        self.wrapping_add(*other)
    }
}

impl AddMagma for u64 {
    open spec fn add_spec(&self, other: &Self) -> Self {
        self.wrapping_add(*other)
    }

    /// Wrapping addition.
    fn add(&self, other: &Self) -> Self {
        self.wrapping_add(*other)
    }
}

impl AddMagma for u128 {
    open spec fn add_spec(&self, other: &Self) -> Self {
        self.wrapping_add(*other)
    }

    /// Wrapping addition.
    fn add(&self, other: &Self) -> Self {
        self.wrapping_add(*other)
    }
}

impl AddMagma for usize {
    open spec fn add_spec(&self, other: &Self) -> Self {
        self.wrapping_add(*other)
    }

    /// Wrapping addition.
    fn add(&self, other: &Self) -> Self {
        self.wrapping_add(*other)
    }
}

impl AddMagma for i8 {
    open spec fn add_spec(&self, other: &Self) -> Self {
        self.wrapping_add(*other)
    }

    /// Wrapping addition.
    fn add(&self, other: &Self) -> Self {
        self.wrapping_add(*other)
    }
}

impl AddMagma for i16 {
    open spec fn add_spec(&self, other: &Self) -> Self {
        self.wrapping_add(*other)
    }

    /// Wrapping addition.
    fn add(&self, other: &Self) -> Self {
        self.wrapping_add(*other)
    }
}

impl AddMagma for i32 {
    open spec fn add_spec(&self, other: &Self) -> Self {
        self.wrapping_add(*other)
    }

    /// Wrapping addition.
    fn add(&self, other: &Self) -> Self {
        self.wrapping_add(*other)
    }
}

impl AddMagma for i64 {
    open spec fn add_spec(&self, other: &Self) -> Self {
        self.wrapping_add(*other)
    }

    /// Wrapping addition.
    fn add(&self, other: &Self) -> Self {
        self.wrapping_add(*other)
    }
}

impl AddMagma for i128 {
    open spec fn add_spec(&self, other: &Self) -> Self {
        self.wrapping_add(*other)
    }

    /// Wrapping addition.
    fn add(&self, other: &Self) -> Self {
        self.wrapping_add(*other)
    }
}

impl AddMagma for isize {
    open spec fn add_spec(&self, other: &Self) -> Self {
        self.wrapping_add(*other)
    }

    /// Wrapping addition.
    fn add(&self, other: &Self) -> Self {
        self.wrapping_add(*other)
    }
}

} // verus!
