//! Additive commutative groups.
//!
//! An additive commutative group is an additive group `S` whose
//! addition is commutative.
//!
//! # Axioms
//!
//! 1. Group: the additive group axioms hold.
//! 2. Commutativity: ∀g, h ∈ S, g+h = h+g.

use vstd::prelude::*;
use vstd::std_specs::cmp::PartialEqSpec;
use crate::group::add_group::AddGroup;
use crate::group::add_group::NumAddGroup;
use crate::magma::add_magma::AddMagma;
use crate::types::NumPair;
use crate::types::Pair;

verus! {

/// An algebraic additive commutative group.
pub trait AddComGroup: AddGroup {
    /// Test the axiom of commutativity.
    fn axiom_add_commutivity(xs: Pair<Self>) -> (holds: bool)
        ensures
            Self::obeys_eq_spec() ==> holds == xs.0.add_spec(xs.1).eq_spec(&xs.1.add_spec(xs.0)),
    {
        let (x, y) = xs;

        x.add(y) == y.add(x)
    }
}

/// A numeric algebraic additive commutative group.
///
/// For types that form an additive commutative group only when
/// values are compared numerically, such as floating point types.
pub trait NumAddComGroup: NumAddGroup {
    /// Numerically test the axiom of commutativity.
    fn axiom_add_commutivity(xs: NumPair<Self>) -> (holds: bool)
        ensures
            holds == xs.0.add_spec(xs.1).num_eq_spec(&xs.1.add_spec(xs.0), xs.2),
    {
        let (x, y, eps) = xs;

        x.add(y).num_eq(&y.add(x), eps)
    }
}

// The signed integer types form additive commutative groups.

impl AddComGroup for i8 {
}

/// Wrapping addition on `i8` is commutative.
pub proof fn lemma_i8_add_commutative(x: i8, y: i8)
    ensures
        x.add_spec(&y) == y.add_spec(&x),
{
}

impl AddComGroup for i16 {
}

/// Wrapping addition on `i16` is commutative.
pub proof fn lemma_i16_add_commutative(x: i16, y: i16)
    ensures
        x.add_spec(&y) == y.add_spec(&x),
{
}

impl AddComGroup for i32 {
}

/// Wrapping addition on `i32` is commutative.
pub proof fn lemma_i32_add_commutative(x: i32, y: i32)
    ensures
        x.add_spec(&y) == y.add_spec(&x),
{
}

impl AddComGroup for i64 {
}

/// Wrapping addition on `i64` is commutative.
pub proof fn lemma_i64_add_commutative(x: i64, y: i64)
    ensures
        x.add_spec(&y) == y.add_spec(&x),
{
}

impl AddComGroup for i128 {
}

/// Wrapping addition on `i128` is commutative.
pub proof fn lemma_i128_add_commutative(x: i128, y: i128)
    ensures
        x.add_spec(&y) == y.add_spec(&x),
{
}

impl AddComGroup for isize {
}

/// Wrapping addition on `isize` is commutative.
pub proof fn lemma_isize_add_commutative(x: isize, y: isize)
    ensures
        x.add_spec(&y) == y.add_spec(&x),
{
}

} // verus!
