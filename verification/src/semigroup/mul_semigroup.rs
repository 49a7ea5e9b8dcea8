//! Multiplicative semigroups.
//!
//! A multiplicative semigroup is a multiplicative magma `S` whose
//! multiplication is associative.
//!
//! # Axioms
//!
//! 1. Magma: the multiplicative magma axioms hold.
//! 2. Associativity: ∀x, y, z ∈ S, (x*y)*z = x*(y*z).

use vstd::prelude::*;
use vstd::std_specs::cmp::PartialEqSpec;
use crate::magma::mul_magma::MulMagma;
use crate::magma::mul_magma::NumMulMagma;
use crate::modular::lemma_residue_mul_associative;
use crate::modular::lemma_signed_mul_associative;
use crate::types::NumTriple;
use crate::types::Triple;

verus! {

/// An algebraic multiplicative semigroup.
pub trait MulSemigroup: MulMagma {
    /// Test the axiom of associativity.
    fn axiom_mul_associativity(xs: Triple<Self>) -> (holds: bool)
        ensures
            Self::obeys_eq_spec() ==> holds == xs.0.mul_spec(&xs.1.mul_spec(xs.2)).eq_spec(
                &xs.0.mul_spec(xs.1).mul_spec(xs.2),
            ),
    {
        let (x, y, z) = xs;

        x.mul(&y.mul(z)) == x.mul(y).mul(z)
    }
}

/// A numeric algebraic multiplicative semigroup.
///
/// For types that form a multiplicative semigroup only when values are
/// compared numerically, such as floating point types.
pub trait NumMulSemigroup: NumMulMagma {
    /// Numerically test the axiom of associativity.
    fn axiom_mul_associativity(xs: NumTriple<Self>) -> (holds: bool)
        ensures
            holds == xs.0.mul_spec(&xs.1.mul_spec(xs.2)).num_eq_spec(
                &xs.0.mul_spec(xs.1).mul_spec(xs.2),
                xs.3,
            ),
    {
        let (x, y, z, eps) = xs;

        x.mul(&y.mul(z)).num_eq(&x.mul(y).mul(z), eps)
    }
}

impl MulSemigroup for u8 {
}

/// Wrapping multiplication on `u8` is associative.
pub proof fn lemma_u8_mul_associative(x: u8, y: u8, z: u8)
    ensures
        x.mul_spec(&y.mul_spec(&z)) == x.mul_spec(&y).mul_spec(&z),
{
    lemma_residue_mul_associative(x as int, y as int, z as int, 0x100);
}

impl MulSemigroup for u16 {
}

/// Wrapping multiplication on `u16` is associative.
pub proof fn lemma_u16_mul_associative(x: u16, y: u16, z: u16)
    ensures
        x.mul_spec(&y.mul_spec(&z)) == x.mul_spec(&y).mul_spec(&z),
{
    lemma_residue_mul_associative(x as int, y as int, z as int, 0x1_0000);
}

impl MulSemigroup for u32 {
}

/// Wrapping multiplication on `u32` is associative.
pub proof fn lemma_u32_mul_associative(x: u32, y: u32, z: u32)
    ensures
        x.mul_spec(&y.mul_spec(&z)) == x.mul_spec(&y).mul_spec(&z),
{
    lemma_residue_mul_associative(x as int, y as int, z as int, 0x1_0000_0000);
}

impl MulSemigroup for u64 {
}

/// Wrapping multiplication on `u64` is associative.
pub proof fn lemma_u64_mul_associative(x: u64, y: u64, z: u64)
    ensures
        x.mul_spec(&y.mul_spec(&z)) == x.mul_spec(&y).mul_spec(&z),
{
    lemma_residue_mul_associative(x as int, y as int, z as int, 0x1_0000_0000_0000_0000int);
}

impl MulSemigroup for u128 {
}

/// Wrapping multiplication on `u128` is associative.
pub proof fn lemma_u128_mul_associative(x: u128, y: u128, z: u128)
    ensures
        x.mul_spec(&y.mul_spec(&z)) == x.mul_spec(&y).mul_spec(&z),
{
    lemma_residue_mul_associative(x as int, y as int, z as int, 0x1_0000_0000_0000_0000_0000_0000_0000_0000int);
}

impl MulSemigroup for usize {
}

/// Wrapping multiplication on `usize` is associative.
pub proof fn lemma_usize_mul_associative(x: usize, y: usize, z: usize)
    ensures
        x.mul_spec(&y.mul_spec(&z)) == x.mul_spec(&y).mul_spec(&z),
{
    lemma_residue_mul_associative(x as int, y as int, z as int, usize::MAX + 1);
}

impl MulSemigroup for i8 {
}

/// Wrapping multiplication on `i8` is associative.
pub proof fn lemma_i8_mul_associative(x: i8, y: i8, z: i8)
    ensures
        x.mul_spec(&y.mul_spec(&z)) == x.mul_spec(&y).mul_spec(&z),
{
    lemma_signed_mul_associative(x as int, y as int, z as int, 0x80);
}

impl MulSemigroup for i16 {
}

/// Wrapping multiplication on `i16` is associative.
pub proof fn lemma_i16_mul_associative(x: i16, y: i16, z: i16)
    ensures
        x.mul_spec(&y.mul_spec(&z)) == x.mul_spec(&y).mul_spec(&z),
{
    lemma_signed_mul_associative(x as int, y as int, z as int, 0x8000);
}

impl MulSemigroup for i32 {
}

/// Wrapping multiplication on `i32` is associative.
pub proof fn lemma_i32_mul_associative(x: i32, y: i32, z: i32)
    ensures
        x.mul_spec(&y.mul_spec(&z)) == x.mul_spec(&y).mul_spec(&z),
{
    lemma_signed_mul_associative(x as int, y as int, z as int, 0x8000_0000);
}

impl MulSemigroup for i64 {
}

/// Wrapping multiplication on `i64` is associative.
pub proof fn lemma_i64_mul_associative(x: i64, y: i64, z: i64)
    ensures
        x.mul_spec(&y.mul_spec(&z)) == x.mul_spec(&y).mul_spec(&z),
{
    lemma_signed_mul_associative(x as int, y as int, z as int, 0x8000_0000_0000_0000);
}

impl MulSemigroup for i128 {
}

/// Wrapping multiplication on `i128` is associative.
pub proof fn lemma_i128_mul_associative(x: i128, y: i128, z: i128)
    ensures
        x.mul_spec(&y.mul_spec(&z)) == x.mul_spec(&y).mul_spec(&z),
{
    lemma_signed_mul_associative(x as int, y as int, z as int, 0x8000_0000_0000_0000_0000_0000_0000_0000int);
}

impl MulSemigroup for isize {
}

/// Wrapping multiplication on `isize` is associative.
pub proof fn lemma_isize_mul_associative(x: isize, y: isize, z: isize)
    ensures
        x.mul_spec(&y.mul_spec(&z)) == x.mul_spec(&y).mul_spec(&z),
{
    lemma_signed_mul_associative(x as int, y as int, z as int, isize::MAX + 1);
}

} // verus!
