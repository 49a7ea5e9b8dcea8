//! Commutative rings.
//!
//! A commutative ring is a ring `R` whose multiplication `*` is
//! commutative.
//!
//! # Axioms
//!
//! 1. Ring: the ring axioms hold.
//! 2. Commutativity: ∀x, y ∈ R, x*y = y*x.

use vstd::prelude::*;
use vstd::std_specs::cmp::PartialEqSpec;
use crate::magma::mul_magma::MulMagma;
use crate::modular::lemma_signed_mul_commutative;
use crate::ring::ring::NumRing;
use crate::ring::ring::Ring;
use crate::types::NumPair;
use crate::types::Pair;

verus! {

/// An algebraic commutative ring.
pub trait ComRing: Ring {
    /// Test the axiom of multiplicative commutativity.
    fn axiom_mul_commutivity(xs: Pair<Self>) -> (holds: bool)
        ensures
            Self::obeys_eq_spec() ==> holds == xs.0.mul_spec(xs.1).eq_spec(&xs.1.mul_spec(xs.0)),
    {
        let (x, y) = xs;

        x.mul(y) == y.mul(x)
    }
}

/// A numeric algebraic commutative ring.
///
/// For types that form a commutative ring only when values are
/// compared numerically, such as floating point types.
pub trait NumComRing: NumRing {
    /// Numerically test the axiom of multiplicative commutativity.
    fn axiom_mul_commutivity(xs: NumPair<Self>) -> (holds: bool)
        ensures
            holds == xs.0.mul_spec(xs.1).num_eq_spec(&xs.1.mul_spec(xs.0), xs.2),
    {
        let (x, y, eps) = xs;

        x.mul(y).num_eq(&y.mul(x), eps)
    }
}

// The signed integer types form commutative rings under wrapping
// arithmetic.

impl ComRing for i8 {
}

/// Wrapping multiplication on `i8` is commutative.
pub proof fn lemma_i8_mul_commutative(x: i8, y: i8)
    ensures
        x.mul_spec(&y) == y.mul_spec(&x),
{
    lemma_signed_mul_commutative(x as int, y as int, 0x80);
}

impl ComRing for i16 {
}

/// Wrapping multiplication on `i16` is commutative.
pub proof fn lemma_i16_mul_commutative(x: i16, y: i16)
    ensures
        x.mul_spec(&y) == y.mul_spec(&x),
{
    lemma_signed_mul_commutative(x as int, y as int, 0x8000);
}

impl ComRing for i32 {
}

/// Wrapping multiplication on `i32` is commutative.
pub proof fn lemma_i32_mul_commutative(x: i32, y: i32)
    ensures
        x.mul_spec(&y) == y.mul_spec(&x),
{
    lemma_signed_mul_commutative(x as int, y as int, 0x8000_0000);
}

impl ComRing for i64 {
}

/// Wrapping multiplication on `i64` is commutative.
pub proof fn lemma_i64_mul_commutative(x: i64, y: i64)
    ensures
        x.mul_spec(&y) == y.mul_spec(&x),
{
    lemma_signed_mul_commutative(x as int, y as int, 0x8000_0000_0000_0000);
}

impl ComRing for i128 {
}

/// Wrapping multiplication on `i128` is commutative.
pub proof fn lemma_i128_mul_commutative(x: i128, y: i128)
    ensures
        x.mul_spec(&y) == y.mul_spec(&x),
{
    lemma_signed_mul_commutative(x as int, y as int, 0x8000_0000_0000_0000_0000_0000_0000_0000int);
}

impl ComRing for isize {
}

/// Wrapping multiplication on `isize` is commutative.
pub proof fn lemma_isize_mul_commutative(x: isize, y: isize)
    ensures
        x.mul_spec(&y) == y.mul_spec(&x),
{
    lemma_signed_mul_commutative(x as int, y as int, isize::MAX + 1);
}

} // verus!
