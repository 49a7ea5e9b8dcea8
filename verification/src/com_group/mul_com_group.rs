//! Multiplicative commutative groups.
//!
//! A multiplicative commutative group is a multiplicative group `S` whose
//! multiplication is commutative.
//!
//! # Axioms
//!
//! 1. Group: the multiplicative group axioms hold.
//! 2. Commutativity: ∀g, h ∈ S, g*h = h*g.

use vstd::prelude::*;
use vstd::std_specs::cmp::PartialEqSpec;
use crate::group::mul_group::MulGroup;
use crate::group::mul_group::NumMulGroup;
use crate::types::NumPair;
use crate::types::Pair;

verus! {

/// An algebraic multiplicative commutative group.
pub trait MulComGroup: MulGroup {
    /// Test the axiom of commutativity.
    fn axiom_mul_commutivity(xs: Pair<Self>) -> (holds: bool)
        ensures
            Self::obeys_eq_spec() ==> holds == xs.0.mul_spec(xs.1).eq_spec(&xs.1.mul_spec(xs.0)),
    {
        let (x, y) = xs;

        x.mul(y) == y.mul(x)
    }
}

/// A numeric algebraic multiplicative commutative group.
///
/// For types that form a multiplicative commutative group only when
/// values are compared numerically, such as floating point types.
pub trait NumMulComGroup: NumMulGroup {
    /// Numerically test the axiom of commutativity.
    fn axiom_mul_commutivity(xs: NumPair<Self>) -> (holds: bool)
        ensures
            holds == xs.0.mul_spec(xs.1).num_eq_spec(&xs.1.mul_spec(xs.0), xs.2),
    {
        let (x, y, eps) = xs;

        x.mul(y).num_eq(&y.mul(x), eps)
    }
}

} // verus!
