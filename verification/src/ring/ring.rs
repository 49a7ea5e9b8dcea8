//! Rings.
//!
//! A ring `R` is an additive commutative group and a multiplicative
//! monoid at once, so it has an addition `+` and a multiplication `*`,
//! with identity elements zero `0` and one `1`. Multiplication
//! distributes over addition.
//!
//! # Axioms
//!
//! 1. Group: the additive commutative group axioms hold.
//! 2. Monoid: the multiplicative monoid axioms hold.
//! 3. Distributivity (L): ∀x, y, z ∈ R, x*(y+z) = x*y + x*z.
//! 4. Distributivity (R): ∀x, y, z ∈ R, (y+z)*x = y*x + z*x.
//!
//! # Properties
//!
//! The `prop_` predicates test facts that follow from the axioms: zero
//! absorbs under multiplication, and negation passes through it. For
//! types that satisfy the axioms only numerically they are tests in
//! their own right.

use vstd::prelude::*;
use vstd::std_specs::cmp::PartialEqSpec;
use crate::com_group::add_com_group::AddComGroup;
use crate::com_group::add_com_group::NumAddComGroup;
use crate::group::add_group::AddGroup;
use crate::magma::add_magma::AddMagma;
use crate::magma::mul_magma::MulMagma;
use crate::modular::lemma_signed_mul_distributive;
use crate::modular::lemma_signed_mul_negation;
use crate::modular::lemma_signed_residue_of_near;
use crate::modular::lemma_signed_residue_of_small;
use crate::monoid::add_monoid::AddMonoid;
use crate::monoid::mul_monoid::MulMonoid;
use crate::monoid::mul_monoid::NumMulMonoid;
use crate::types::NumPair;
use crate::types::NumTriple;
use crate::types::Pair;
use crate::types::Triple;

verus! {

/// An algebraic ring.
pub trait Ring: AddComGroup + MulMonoid {
    /// Test the axiom that zero and one differ.
    fn axiom_identities() -> (holds: bool)
        ensures
            Self::obeys_eq_spec() ==> holds == !Self::zero_spec().eq_spec(&Self::one_spec()),
    {
        Self::zero() != Self::one()
    }

    /// Test the axiom of left distributivity.
    fn axiom_left_distributivity(xs: Triple<Self>) -> (holds: bool)
        ensures
            Self::obeys_eq_spec() ==> holds == xs.0.mul_spec(&xs.1.add_spec(xs.2)).eq_spec(
                &xs.0.mul_spec(xs.1).add_spec(&xs.0.mul_spec(xs.2)),
            ),
    {
        let (x, y, z) = xs;

        x.mul(&y.add(z)) == x.mul(y).add(&x.mul(z))
    }

    /// Test the axiom of right distributivity.
    fn axiom_right_distributivity(xs: Triple<Self>) -> (holds: bool)
        ensures
            Self::obeys_eq_spec() ==> holds == xs.1.add_spec(xs.2).mul_spec(xs.0).eq_spec(
                &xs.1.mul_spec(xs.0).add_spec(&xs.2.mul_spec(xs.0)),
            ),
    {
        let (x, y, z) = xs;

        y.add(z).mul(x) == y.mul(x).add(&z.mul(x))
    }

    /// Test the property that zero absorbs as the right factor.
    fn prop_left_zero_absorb(&self) -> (holds: bool)
        ensures
            Self::obeys_eq_spec() ==> holds == self.mul_spec(&Self::zero_spec()).eq_spec(
                &Self::zero_spec(),
            ),
    {
        self.mul(&Self::zero()) == Self::zero()
    }

    /// Test the property that zero absorbs as the left factor.
    fn prop_right_zero_absorb(&self) -> (holds: bool)
        ensures
            Self::obeys_eq_spec() ==> holds == Self::zero_spec().mul_spec(self).eq_spec(
                &Self::zero_spec(),
            ),
    {
        Self::zero().mul(self) == Self::zero()
    }

    /// Test the property that `x * -y` is `-(x * y)`.
    fn prop_right_mul_negate(xs: Pair<Self>) -> (holds: bool)
        ensures
            Self::obeys_eq_spec() ==> holds == xs.0.mul_spec(&xs.1.negate_spec()).eq_spec(
                &xs.0.mul_spec(xs.1).negate_spec(),
            ),
    {
        let (x, y) = xs;

        x.mul(&y.negate()) == x.mul(y).negate()
    }

    /// Test the property that `-x * y` is `-(x * y)`.
    fn prop_left_mul_negate(xs: Pair<Self>) -> (holds: bool)
        ensures
            Self::obeys_eq_spec() ==> holds == xs.0.negate_spec().mul_spec(xs.1).eq_spec(
                &xs.0.mul_spec(xs.1).negate_spec(),
            ),
    {
        let (x, y) = xs;

        x.negate().mul(y) == x.mul(y).negate()
    }

    /// Test the property that `-x * -y` is `x * y`.
    fn prop_mul_negate(xs: Pair<Self>) -> (holds: bool)
        ensures
            Self::obeys_eq_spec() ==> holds == xs.0.negate_spec().mul_spec(&xs.1.negate_spec()).eq_spec(
                &xs.0.mul_spec(xs.1),
            ),
    {
        let (x, y) = xs;

        x.negate().mul(&y.negate()) == x.mul(y)
    }

    /// Test the property that `-1 * x` is `-x`.
    fn prop_left_one_negate(&self) -> (holds: bool)
        ensures
            Self::obeys_eq_spec() ==> holds == Self::one_spec().negate_spec().mul_spec(self).eq_spec(
                &self.negate_spec(),
            ),
    {
        Self::one().negate().mul(self) == self.negate()
    }

    /// Test the property that `x * -1` is `-x`.
    fn prop_right_one_negate(&self) -> (holds: bool)
        ensures
            Self::obeys_eq_spec() ==> holds == self.mul_spec(&Self::one_spec().negate_spec()).eq_spec(
                &self.negate_spec(),
            ),
    {
        self.mul(&Self::one().negate()) == self.negate()
    }

    /// Test the property that `-1 * -1` is `1`.
    fn prop_right_ones_negate(&self) -> (holds: bool)
        ensures
            Self::obeys_eq_spec() ==> holds == Self::one_spec().negate_spec().mul_spec(&Self::one_spec().negate_spec()).eq_spec(
                &Self::one_spec(),
            ),
    {
        Self::one().negate().mul(&Self::one().negate()) == Self::one()
    }
}

/// A numeric algebraic ring.
///
/// For types that form a ring only when values are compared
/// numerically, such as floating point types.
pub trait NumRing: NumAddComGroup + NumMulMonoid {
    /// Test the axiom that zero and one differ, exactly.
    fn axiom_identities() -> (holds: bool)
        ensures
            Self::obeys_eq_spec() ==> holds == !Self::zero_spec().eq_spec(&Self::one_spec()),
    {
        Self::zero() != Self::one()
    }

    /// Numerically test the axiom of left distributivity.
    fn axiom_left_distributivity(xs: NumTriple<Self>) -> (holds: bool)
        ensures
            holds == xs.0.mul_spec(&xs.1.add_spec(xs.2)).num_eq_spec(
                &xs.0.mul_spec(xs.1).add_spec(&xs.0.mul_spec(xs.2)),
                xs.3,
            ),
    {
        let (x, y, z, eps) = xs;

        x.mul(&y.add(z)).num_eq(&x.mul(y).add(&x.mul(z)), eps)
    }

    /// Numerically test the axiom of right distributivity.
    fn axiom_right_distributivity(xs: NumTriple<Self>) -> (holds: bool)
        ensures
            holds == xs.1.add_spec(xs.2).mul_spec(xs.0).num_eq_spec(
                &xs.1.mul_spec(xs.0).add_spec(&xs.2.mul_spec(xs.0)),
                xs.3,
            ),
    {
        let (x, y, z, eps) = xs;

        y.add(z).mul(x).num_eq(&y.mul(x).add(&z.mul(x)), eps)
    }

    /// Numerically test the property that zero absorbs as the right factor.
    fn prop_left_zero_absorb(&self, eps: &Self::Error) -> (holds: bool)
        ensures
            holds == self.mul_spec(&Self::zero_spec()).num_eq_spec(&Self::zero_spec(), eps),
    {
        self.mul(&Self::zero()).num_eq(&Self::zero(), eps)
    }

    /// Numerically test the property that zero absorbs as the left factor.
    fn prop_right_zero_absorb(&self, eps: &Self::Error) -> (holds: bool)
        ensures
            holds == Self::zero_spec().mul_spec(self).num_eq_spec(&Self::zero_spec(), eps),
    {
        Self::zero().mul(self).num_eq(&Self::zero(), eps)
    }

    /// Numerically test the property that `x * -y` is `-(x * y)`.
    fn prop_right_mul_negate(xs: NumPair<Self>) -> (holds: bool)
        ensures
            holds == xs.0.mul_spec(&xs.1.negate_spec()).num_eq_spec(
                &xs.0.mul_spec(xs.1).negate_spec(),
                xs.2,
            ),
    {
        let (x, y, eps) = xs;

        x.mul(&y.negate()).num_eq(&x.mul(y).negate(), eps)
    }

    /// Numerically test the property that `-x * y` is `-(x * y)`.
    fn prop_left_mul_negate(xs: NumPair<Self>) -> (holds: bool)
        ensures
            holds == xs.0.negate_spec().mul_spec(xs.1).num_eq_spec(
                &xs.0.mul_spec(xs.1).negate_spec(),
                xs.2,
            ),
    {
        let (x, y, eps) = xs;

        x.negate().mul(y).num_eq(&x.mul(y).negate(), eps)
    }

    /// Numerically test the property that `-x * -y` is `x * y`.
    fn prop_mul_negate(xs: NumPair<Self>) -> (holds: bool)
        ensures
            holds == xs.0.negate_spec().mul_spec(&xs.1.negate_spec()).num_eq_spec(
                &xs.0.mul_spec(xs.1),
                xs.2,
            ),
    {
        let (x, y, eps) = xs;

        x.negate().mul(&y.negate()).num_eq(&x.mul(y), eps)
    }

    /// Numerically test the property that `-1 * x` is `-x`.
    fn prop_left_one_negate(&self, eps: &Self::Error) -> (holds: bool)
        ensures
            holds == Self::one_spec().negate_spec().mul_spec(self).num_eq_spec(
                &self.negate_spec(),
                eps,
            ),
    {
        Self::one().negate().mul(self).num_eq(&self.negate(), eps)
    }

    /// Numerically test the property that `x * -1` is `-x`.
    fn prop_right_one_negate(&self, eps: &Self::Error) -> (holds: bool)
        ensures
            holds == self.mul_spec(&Self::one_spec().negate_spec()).num_eq_spec(
                &self.negate_spec(),
                eps,
            ),
    {
        self.mul(&Self::one().negate()).num_eq(&self.negate(), eps)
    }

    /// Numerically test the property that `-1 * -1` is `1`.
    fn prop_right_ones_negate(&self, eps: &Self::Error) -> (holds: bool)
        ensures
            holds == Self::one_spec().negate_spec().mul_spec(&Self::one_spec().negate_spec()).num_eq_spec(
                &Self::one_spec(),
                eps,
            ),
    {
        Self::one().negate().mul(&Self::one().negate()).num_eq(&Self::one(), eps)
    }
}

// The signed integer types form rings under wrapping arithmetic.

impl Ring for i8 {
}

/// On `i8`, wrapping multiplication distributes over wrapping
/// addition, from the left and from the right.
pub proof fn lemma_i8_mul_distributive(x: i8, y: i8, z: i8)
    ensures
        x.mul_spec(&y.add_spec(&z)) == x.mul_spec(&y).add_spec(&x.mul_spec(&z)),
        y.add_spec(&z).mul_spec(&x) == y.mul_spec(&x).add_spec(&z.mul_spec(&x)),
{
    lemma_signed_mul_distributive(x as int, y as int, z as int, 0x80);
    lemma_signed_residue_of_near(y + z, 0x80);
    lemma_signed_residue_of_near(x.mul_spec(&y) + x.mul_spec(&z), 0x80);
    lemma_signed_residue_of_near(y.mul_spec(&x) + z.mul_spec(&x), 0x80);
}

/// On `i8`, zero and one differ.
pub proof fn lemma_i8_identities_distinct()
    ensures
        i8::zero_spec() != i8::one_spec(),
{
}

/// On `i8`, zero absorbs under wrapping multiplication, on either
/// side.
pub proof fn lemma_i8_zero_absorbs(x: i8)
    ensures
        x.mul_spec(&i8::zero_spec()) == i8::zero_spec(),
        i8::zero_spec().mul_spec(&x) == i8::zero_spec(),
{
    lemma_signed_residue_of_small(0, 0x80);
}

/// On `i8`, wrapping negation passes through wrapping
/// multiplication: `x * -y` and `-x * y` are `-(x * y)`, and `-x * -y`
/// is `x * y`.
pub proof fn lemma_i8_mul_negation(x: i8, y: i8)
    ensures
        x.mul_spec(&y.negate_spec()) == x.mul_spec(&y).negate_spec(),
        x.negate_spec().mul_spec(&y) == x.mul_spec(&y).negate_spec(),
        x.negate_spec().mul_spec(&y.negate_spec()) == x.mul_spec(&y),
{
    lemma_signed_mul_negation(x as int, y as int, 0x80);
    lemma_signed_residue_of_near(-x, 0x80);
    lemma_signed_residue_of_near(-y, 0x80);
    lemma_signed_residue_of_near(-x.mul_spec(&y), 0x80);
}

/// On `i8`, multiplying by the negation of one negates, on either
/// side, and the negation of one times itself is one.
pub proof fn lemma_i8_one_negation(x: i8)
    ensures
        i8::one_spec().negate_spec().mul_spec(&x) == x.negate_spec(),
        x.mul_spec(&i8::one_spec().negate_spec()) == x.negate_spec(),
        i8::one_spec().negate_spec().mul_spec(&i8::one_spec().negate_spec()) == i8::one_spec(),
{
    lemma_i8_mul_negation(1, x);
    lemma_i8_mul_negation(x, 1);
    lemma_i8_mul_negation(1, 1);
    lemma_signed_residue_of_small(x as int, 0x80);
    lemma_signed_residue_of_small(1, 0x80);
}

impl Ring for i16 {
}

/// On `i16`, wrapping multiplication distributes over wrapping
/// addition, from the left and from the right.
pub proof fn lemma_i16_mul_distributive(x: i16, y: i16, z: i16)
    ensures
        x.mul_spec(&y.add_spec(&z)) == x.mul_spec(&y).add_spec(&x.mul_spec(&z)),
        y.add_spec(&z).mul_spec(&x) == y.mul_spec(&x).add_spec(&z.mul_spec(&x)),
{
    lemma_signed_mul_distributive(x as int, y as int, z as int, 0x8000);
    lemma_signed_residue_of_near(y + z, 0x8000);
    lemma_signed_residue_of_near(x.mul_spec(&y) + x.mul_spec(&z), 0x8000);
    lemma_signed_residue_of_near(y.mul_spec(&x) + z.mul_spec(&x), 0x8000);
}

/// On `i16`, zero and one differ.
pub proof fn lemma_i16_identities_distinct()
    ensures
        i16::zero_spec() != i16::one_spec(),
{
}

/// On `i16`, zero absorbs under wrapping multiplication, on either
/// side.
pub proof fn lemma_i16_zero_absorbs(x: i16)
    ensures
        x.mul_spec(&i16::zero_spec()) == i16::zero_spec(),
        i16::zero_spec().mul_spec(&x) == i16::zero_spec(),
{
    lemma_signed_residue_of_small(0, 0x8000);
}

/// On `i16`, wrapping negation passes through wrapping
/// multiplication: `x * -y` and `-x * y` are `-(x * y)`, and `-x * -y`
/// is `x * y`.
pub proof fn lemma_i16_mul_negation(x: i16, y: i16)
    ensures
        x.mul_spec(&y.negate_spec()) == x.mul_spec(&y).negate_spec(),
        x.negate_spec().mul_spec(&y) == x.mul_spec(&y).negate_spec(),
        x.negate_spec().mul_spec(&y.negate_spec()) == x.mul_spec(&y),
{
    lemma_signed_mul_negation(x as int, y as int, 0x8000);
    lemma_signed_residue_of_near(-x, 0x8000);
    lemma_signed_residue_of_near(-y, 0x8000);
    lemma_signed_residue_of_near(-x.mul_spec(&y), 0x8000);
}

/// On `i16`, multiplying by the negation of one negates, on either
/// side, and the negation of one times itself is one.
pub proof fn lemma_i16_one_negation(x: i16)
    ensures
        i16::one_spec().negate_spec().mul_spec(&x) == x.negate_spec(),
        x.mul_spec(&i16::one_spec().negate_spec()) == x.negate_spec(),
        i16::one_spec().negate_spec().mul_spec(&i16::one_spec().negate_spec()) == i16::one_spec(),
{
    lemma_i16_mul_negation(1, x);
    lemma_i16_mul_negation(x, 1);
    lemma_i16_mul_negation(1, 1);
    lemma_signed_residue_of_small(x as int, 0x8000);
    lemma_signed_residue_of_small(1, 0x8000);
}

impl Ring for i32 {
}

/// On `i32`, wrapping multiplication distributes over wrapping
/// addition, from the left and from the right.
pub proof fn lemma_i32_mul_distributive(x: i32, y: i32, z: i32)
    ensures
        x.mul_spec(&y.add_spec(&z)) == x.mul_spec(&y).add_spec(&x.mul_spec(&z)),
        y.add_spec(&z).mul_spec(&x) == y.mul_spec(&x).add_spec(&z.mul_spec(&x)),
{
    lemma_signed_mul_distributive(x as int, y as int, z as int, 0x8000_0000);
    lemma_signed_residue_of_near(y + z, 0x8000_0000);
    lemma_signed_residue_of_near(x.mul_spec(&y) + x.mul_spec(&z), 0x8000_0000);
    lemma_signed_residue_of_near(y.mul_spec(&x) + z.mul_spec(&x), 0x8000_0000);
}

/// On `i32`, zero and one differ.
pub proof fn lemma_i32_identities_distinct()
    ensures
        i32::zero_spec() != i32::one_spec(),
{
}

/// On `i32`, zero absorbs under wrapping multiplication, on either
/// side.
pub proof fn lemma_i32_zero_absorbs(x: i32)
    ensures
        x.mul_spec(&i32::zero_spec()) == i32::zero_spec(),
        i32::zero_spec().mul_spec(&x) == i32::zero_spec(),
{
    lemma_signed_residue_of_small(0, 0x8000_0000);
}

/// On `i32`, wrapping negation passes through wrapping
/// multiplication: `x * -y` and `-x * y` are `-(x * y)`, and `-x * -y`
/// is `x * y`.
pub proof fn lemma_i32_mul_negation(x: i32, y: i32)
    ensures
        x.mul_spec(&y.negate_spec()) == x.mul_spec(&y).negate_spec(),
        x.negate_spec().mul_spec(&y) == x.mul_spec(&y).negate_spec(),
        x.negate_spec().mul_spec(&y.negate_spec()) == x.mul_spec(&y),
{
    lemma_signed_mul_negation(x as int, y as int, 0x8000_0000);
    lemma_signed_residue_of_near(-x, 0x8000_0000);
    lemma_signed_residue_of_near(-y, 0x8000_0000);
    lemma_signed_residue_of_near(-x.mul_spec(&y), 0x8000_0000);
}

/// On `i32`, multiplying by the negation of one negates, on either
/// side, and the negation of one times itself is one.
pub proof fn lemma_i32_one_negation(x: i32)
    ensures
        i32::one_spec().negate_spec().mul_spec(&x) == x.negate_spec(),
        x.mul_spec(&i32::one_spec().negate_spec()) == x.negate_spec(),
        i32::one_spec().negate_spec().mul_spec(&i32::one_spec().negate_spec()) == i32::one_spec(),
{
    lemma_i32_mul_negation(1, x);
    lemma_i32_mul_negation(x, 1);
    lemma_i32_mul_negation(1, 1);
    lemma_signed_residue_of_small(x as int, 0x8000_0000);
    lemma_signed_residue_of_small(1, 0x8000_0000);
}

impl Ring for i64 {
}

/// On `i64`, wrapping multiplication distributes over wrapping
/// addition, from the left and from the right.
pub proof fn lemma_i64_mul_distributive(x: i64, y: i64, z: i64)
    ensures
        x.mul_spec(&y.add_spec(&z)) == x.mul_spec(&y).add_spec(&x.mul_spec(&z)),
        y.add_spec(&z).mul_spec(&x) == y.mul_spec(&x).add_spec(&z.mul_spec(&x)),
{
    lemma_signed_mul_distributive(x as int, y as int, z as int, 0x8000_0000_0000_0000);
    lemma_signed_residue_of_near(y + z, 0x8000_0000_0000_0000);
    lemma_signed_residue_of_near(x.mul_spec(&y) + x.mul_spec(&z), 0x8000_0000_0000_0000);
    lemma_signed_residue_of_near(y.mul_spec(&x) + z.mul_spec(&x), 0x8000_0000_0000_0000);
}

/// On `i64`, zero and one differ.
pub proof fn lemma_i64_identities_distinct()
    ensures
        i64::zero_spec() != i64::one_spec(),
{
}

/// On `i64`, zero absorbs under wrapping multiplication, on either
/// side.
pub proof fn lemma_i64_zero_absorbs(x: i64)
    ensures
        x.mul_spec(&i64::zero_spec()) == i64::zero_spec(),
        i64::zero_spec().mul_spec(&x) == i64::zero_spec(),
{
    lemma_signed_residue_of_small(0, 0x8000_0000_0000_0000);
}

/// On `i64`, wrapping negation passes through wrapping
/// multiplication: `x * -y` and `-x * y` are `-(x * y)`, and `-x * -y`
/// is `x * y`.
pub proof fn lemma_i64_mul_negation(x: i64, y: i64)
    ensures
        x.mul_spec(&y.negate_spec()) == x.mul_spec(&y).negate_spec(),
        x.negate_spec().mul_spec(&y) == x.mul_spec(&y).negate_spec(),
        x.negate_spec().mul_spec(&y.negate_spec()) == x.mul_spec(&y),
{
    lemma_signed_mul_negation(x as int, y as int, 0x8000_0000_0000_0000);
    lemma_signed_residue_of_near(-x, 0x8000_0000_0000_0000);
    lemma_signed_residue_of_near(-y, 0x8000_0000_0000_0000);
    lemma_signed_residue_of_near(-x.mul_spec(&y), 0x8000_0000_0000_0000);
}

/// On `i64`, multiplying by the negation of one negates, on either
/// side, and the negation of one times itself is one.
pub proof fn lemma_i64_one_negation(x: i64)
    ensures
        i64::one_spec().negate_spec().mul_spec(&x) == x.negate_spec(),
        x.mul_spec(&i64::one_spec().negate_spec()) == x.negate_spec(),
        i64::one_spec().negate_spec().mul_spec(&i64::one_spec().negate_spec()) == i64::one_spec(),
{
    lemma_i64_mul_negation(1, x);
    lemma_i64_mul_negation(x, 1);
    lemma_i64_mul_negation(1, 1);
    lemma_signed_residue_of_small(x as int, 0x8000_0000_0000_0000);
    lemma_signed_residue_of_small(1, 0x8000_0000_0000_0000);
}

impl Ring for i128 {
}

/// On `i128`, wrapping multiplication distributes over wrapping
/// addition, from the left and from the right.
pub proof fn lemma_i128_mul_distributive(x: i128, y: i128, z: i128)
    ensures
        x.mul_spec(&y.add_spec(&z)) == x.mul_spec(&y).add_spec(&x.mul_spec(&z)),
        y.add_spec(&z).mul_spec(&x) == y.mul_spec(&x).add_spec(&z.mul_spec(&x)),
{
    lemma_signed_mul_distributive(x as int, y as int, z as int, 0x8000_0000_0000_0000_0000_0000_0000_0000int);
    lemma_signed_residue_of_near(y + z, 0x8000_0000_0000_0000_0000_0000_0000_0000int);
    lemma_signed_residue_of_near(x.mul_spec(&y) + x.mul_spec(&z), 0x8000_0000_0000_0000_0000_0000_0000_0000int);
    lemma_signed_residue_of_near(y.mul_spec(&x) + z.mul_spec(&x), 0x8000_0000_0000_0000_0000_0000_0000_0000int);
}

/// On `i128`, zero and one differ.
pub proof fn lemma_i128_identities_distinct()
    ensures
        i128::zero_spec() != i128::one_spec(),
{
}

/// On `i128`, zero absorbs under wrapping multiplication, on either
/// side.
pub proof fn lemma_i128_zero_absorbs(x: i128)
    ensures
        x.mul_spec(&i128::zero_spec()) == i128::zero_spec(),
        i128::zero_spec().mul_spec(&x) == i128::zero_spec(),
{
    lemma_signed_residue_of_small(0, 0x8000_0000_0000_0000_0000_0000_0000_0000int);
}

/// On `i128`, wrapping negation passes through wrapping
/// multiplication: `x * -y` and `-x * y` are `-(x * y)`, and `-x * -y`
/// is `x * y`.
pub proof fn lemma_i128_mul_negation(x: i128, y: i128)
    ensures
        x.mul_spec(&y.negate_spec()) == x.mul_spec(&y).negate_spec(),
        x.negate_spec().mul_spec(&y) == x.mul_spec(&y).negate_spec(),
        x.negate_spec().mul_spec(&y.negate_spec()) == x.mul_spec(&y),
{
    lemma_signed_mul_negation(x as int, y as int, 0x8000_0000_0000_0000_0000_0000_0000_0000int);
    lemma_signed_residue_of_near(-x, 0x8000_0000_0000_0000_0000_0000_0000_0000int);
    lemma_signed_residue_of_near(-y, 0x8000_0000_0000_0000_0000_0000_0000_0000int);
    lemma_signed_residue_of_near(-x.mul_spec(&y), 0x8000_0000_0000_0000_0000_0000_0000_0000int);
}

/// On `i128`, multiplying by the negation of one negates, on either
/// side, and the negation of one times itself is one.
pub proof fn lemma_i128_one_negation(x: i128)
    ensures
        i128::one_spec().negate_spec().mul_spec(&x) == x.negate_spec(),
        x.mul_spec(&i128::one_spec().negate_spec()) == x.negate_spec(),
        i128::one_spec().negate_spec().mul_spec(&i128::one_spec().negate_spec()) == i128::one_spec(),
{
    lemma_i128_mul_negation(1, x);
    lemma_i128_mul_negation(x, 1);
    lemma_i128_mul_negation(1, 1);
    lemma_signed_residue_of_small(x as int, 0x8000_0000_0000_0000_0000_0000_0000_0000int);
    lemma_signed_residue_of_small(1, 0x8000_0000_0000_0000_0000_0000_0000_0000int);
}

impl Ring for isize {
}

/// On `isize`, wrapping multiplication distributes over wrapping
/// addition, from the left and from the right.
pub proof fn lemma_isize_mul_distributive(x: isize, y: isize, z: isize)
    ensures
        x.mul_spec(&y.add_spec(&z)) == x.mul_spec(&y).add_spec(&x.mul_spec(&z)),
        y.add_spec(&z).mul_spec(&x) == y.mul_spec(&x).add_spec(&z.mul_spec(&x)),
{
    lemma_signed_mul_distributive(x as int, y as int, z as int, isize::MAX + 1);
    lemma_signed_residue_of_near(y + z, isize::MAX + 1);
    lemma_signed_residue_of_near(x.mul_spec(&y) + x.mul_spec(&z), isize::MAX + 1);
    lemma_signed_residue_of_near(y.mul_spec(&x) + z.mul_spec(&x), isize::MAX + 1);
}

/// On `isize`, zero and one differ.
pub proof fn lemma_isize_identities_distinct()
    ensures
        isize::zero_spec() != isize::one_spec(),
{
}

/// On `isize`, zero absorbs under wrapping multiplication, on either
/// side.
pub proof fn lemma_isize_zero_absorbs(x: isize)
    ensures
        x.mul_spec(&isize::zero_spec()) == isize::zero_spec(),
        isize::zero_spec().mul_spec(&x) == isize::zero_spec(),
{
    lemma_signed_residue_of_small(0, isize::MAX + 1);
}

/// On `isize`, wrapping negation passes through wrapping
/// multiplication: `x * -y` and `-x * y` are `-(x * y)`, and `-x * -y`
/// is `x * y`.
pub proof fn lemma_isize_mul_negation(x: isize, y: isize)
    ensures
        x.mul_spec(&y.negate_spec()) == x.mul_spec(&y).negate_spec(),
        x.negate_spec().mul_spec(&y) == x.mul_spec(&y).negate_spec(),
        x.negate_spec().mul_spec(&y.negate_spec()) == x.mul_spec(&y),
{
    lemma_signed_mul_negation(x as int, y as int, isize::MAX + 1);
    lemma_signed_residue_of_near(-x, isize::MAX + 1);
    lemma_signed_residue_of_near(-y, isize::MAX + 1);
    lemma_signed_residue_of_near(-x.mul_spec(&y), isize::MAX + 1);
}

/// On `isize`, multiplying by the negation of one negates, on either
/// side, and the negation of one times itself is one.
pub proof fn lemma_isize_one_negation(x: isize)
    ensures
        isize::one_spec().negate_spec().mul_spec(&x) == x.negate_spec(),
        x.mul_spec(&isize::one_spec().negate_spec()) == x.negate_spec(),
        isize::one_spec().negate_spec().mul_spec(&isize::one_spec().negate_spec()) == isize::one_spec(),
{
    lemma_isize_mul_negation(1, x);
    lemma_isize_mul_negation(x, 1);
    lemma_isize_mul_negation(1, 1);
    lemma_signed_residue_of_small(x as int, isize::MAX + 1);
    lemma_signed_residue_of_small(1, isize::MAX + 1);
}

} // verus!
