//! Additive semigroups.
//!
//! An additive semigroup is an additive magma `S` whose addition is
//! associative.
//!
//! # Axioms
//!
//! 1. Magma: the additive magma axioms hold.
//! 2. Associativity: ∀x, y, z ∈ S, (x+y)+z = x+(y+z).

use vstd::prelude::*;
use vstd::std_specs::cmp::PartialEqSpec;
use crate::magma::add_magma::AddMagma;
use crate::magma::add_magma::NumAddMagma;
use crate::types::NumTriple;
use crate::types::Triple;

verus! {

/// An algebraic additive semigroup.
pub trait AddSemigroup: AddMagma {
    /// Test the axiom of associativity.
    fn axiom_add_associativity(xs: Triple<Self>) -> (holds: bool)
        ensures
            Self::obeys_eq_spec() ==> holds == xs.0.add_spec(&xs.1.add_spec(xs.2)).eq_spec(
                &xs.0.add_spec(xs.1).add_spec(xs.2),
            ),
    {
        let (x, y, z) = xs;

        x.add(&y.add(z)) == x.add(y).add(z)
    }
}

/// A numeric algebraic additive semigroup.
///
/// For types that form an additive semigroup only when values are
/// compared numerically, such as floating point types.
pub trait NumAddSemigroup: NumAddMagma {
    /// Numerically test the axiom of associativity.
    fn axiom_add_associativity(xs: NumTriple<Self>) -> (holds: bool)
        ensures
            holds == xs.0.add_spec(&xs.1.add_spec(xs.2)).num_eq_spec(
                &xs.0.add_spec(xs.1).add_spec(xs.2),
                xs.3,
            ),
    {
        let (x, y, z, eps) = xs;

        x.add(&y.add(z)).num_eq(&x.add(y).add(z), eps)
    }
}

impl AddSemigroup for u8 {
}

/// Wrapping addition on `u8` is associative.
pub proof fn lemma_u8_add_associative(x: u8, y: u8, z: u8)
    ensures
        x.add_spec(&y.add_spec(&z)) == x.add_spec(&y).add_spec(&z),
{
}

impl AddSemigroup for u16 {
}

/// Wrapping addition on `u16` is associative.
pub proof fn lemma_u16_add_associative(x: u16, y: u16, z: u16)
    ensures
        x.add_spec(&y.add_spec(&z)) == x.add_spec(&y).add_spec(&z),
{
}

impl AddSemigroup for u32 {
}

/// Wrapping addition on `u32` is associative.
pub proof fn lemma_u32_add_associative(x: u32, y: u32, z: u32)
    ensures
        x.add_spec(&y.add_spec(&z)) == x.add_spec(&y).add_spec(&z),
{
}

impl AddSemigroup for u64 {
}

/// Wrapping addition on `u64` is associative.
pub proof fn lemma_u64_add_associative(x: u64, y: u64, z: u64)
    ensures
        x.add_spec(&y.add_spec(&z)) == x.add_spec(&y).add_spec(&z),
{
}

impl AddSemigroup for u128 {
}

/// Wrapping addition on `u128` is associative.
pub proof fn lemma_u128_add_associative(x: u128, y: u128, z: u128)
    ensures
        x.add_spec(&y.add_spec(&z)) == x.add_spec(&y).add_spec(&z),
{
}

impl AddSemigroup for usize {
}

/// Wrapping addition on `usize` is associative.
pub proof fn lemma_usize_add_associative(x: usize, y: usize, z: usize)
    ensures
        x.add_spec(&y.add_spec(&z)) == x.add_spec(&y).add_spec(&z),
{
}

impl AddSemigroup for i8 {
}

/// Wrapping addition on `i8` is associative.
pub proof fn lemma_i8_add_associative(x: i8, y: i8, z: i8)
    ensures
        x.add_spec(&y.add_spec(&z)) == x.add_spec(&y).add_spec(&z),
{
}

impl AddSemigroup for i16 {
}

/// Wrapping addition on `i16` is associative.
pub proof fn lemma_i16_add_associative(x: i16, y: i16, z: i16)
    ensures
        x.add_spec(&y.add_spec(&z)) == x.add_spec(&y).add_spec(&z),
{
}

impl AddSemigroup for i32 {
}

/// Wrapping addition on `i32` is associative.
pub proof fn lemma_i32_add_associative(x: i32, y: i32, z: i32)
    ensures
        x.add_spec(&y.add_spec(&z)) == x.add_spec(&y).add_spec(&z),
{
}

impl AddSemigroup for i64 {
}

/// Wrapping addition on `i64` is associative.
pub proof fn lemma_i64_add_associative(x: i64, y: i64, z: i64)
    ensures
        x.add_spec(&y.add_spec(&z)) == x.add_spec(&y).add_spec(&z),
{
}

impl AddSemigroup for i128 {
}

/// Wrapping addition on `i128` is associative.
pub proof fn lemma_i128_add_associative(x: i128, y: i128, z: i128)
    ensures
        x.add_spec(&y.add_spec(&z)) == x.add_spec(&y).add_spec(&z),
{
}

impl AddSemigroup for isize {
}

/// Wrapping addition on `isize` is associative.
pub proof fn lemma_isize_add_associative(x: isize, y: isize, z: isize)
    ensures
        x.add_spec(&y.add_spec(&z)) == x.add_spec(&y).add_spec(&z),
{
}

} // verus!
