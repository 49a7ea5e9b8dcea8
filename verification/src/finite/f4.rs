//! The field with four elements.
//!
//! The values `O`, `I`, `A` and `B` form a field known as F4 or GF(4):
//! the binary field extended by a root `A` of `x^2 + x + 1`, with
//! `B = A + I`.
//!
//! | `+` | O | I | A | B |     | `*` | O | I | A | B |
//! |-----|---|---|---|---|-----|-----|---|---|---|---|
//! | O   | O | I | A | B |     | O   | O | O | O | O |
//! | I   | I | O | B | A |     | I   | O | I | A | B |
//! | A   | A | B | O | I |     | A   | O | A | B | I |
//! | B   | B | A | I | O |     | B   | O | B | I | A |
//!
//! Each value is its own negation. `I` is its own inverse, `A` and `B`
//! are each other's; `O` is the zero of the field and has no inverse.

use vstd::prelude::*;
use vstd::std_specs::cmp::PartialEqSpecImpl;
use crate::com_group::add_com_group::AddComGroup;
use crate::com_group::mul_com_group::MulComGroup;
use crate::com_ring::com_ring::ComRing;
use crate::field::field::Field;
use crate::group::add_group::AddGroup;
use crate::group::mul_group::MulGroup;
use crate::magma::add_magma::AddMagma;
use crate::magma::mul_magma::MulMagma;
use crate::monoid::add_monoid::AddMonoid;
use crate::monoid::mul_monoid::MulMonoid;
use crate::ring::ring::Ring;
use crate::semigroup::add_semigroup::AddSemigroup;
use crate::semigroup::mul_semigroup::MulSemigroup;

verus! {

/// The field with four elements, F4.
#[derive(Clone, Copy, Debug, Eq)]
pub enum F4 {
    /// The zero of the field.
    O,
    /// The one of the field.
    I,
    /// A root of `x^2 + x + 1`.
    A,
    /// The other root, `A + 1`.
    B,
}

impl PartialEq for F4 {
    fn eq(&self, other: &Self) -> (r: bool) {
        match (*self, *other) {
            (F4::O, F4::O) => true,
            (F4::I, F4::I) => true,
            (F4::A, F4::A) => true,
            (F4::B, F4::B) => true,
            _ => false,
        }
    }
}

impl PartialEqSpecImpl for F4 {
    open spec fn obeys_eq_spec() -> bool {
        true
    }

    open spec fn eq_spec(&self, other: &Self) -> bool {
        *self == *other
    }
}

impl AddMagma for F4 {
    open spec fn add_spec(&self, other: &Self) -> Self {
        match (*self, *other) {
            (F4::O, F4::O) => F4::O,
            (F4::O, F4::I) => F4::I,
            (F4::O, F4::A) => F4::A,
            (F4::O, F4::B) => F4::B,
            (F4::I, F4::O) => F4::I,
            (F4::I, F4::I) => F4::O,
            (F4::I, F4::A) => F4::B,
            (F4::I, F4::B) => F4::A,
            (F4::A, F4::O) => F4::A,
            (F4::A, F4::I) => F4::B,
            (F4::A, F4::A) => F4::O,
            (F4::A, F4::B) => F4::I,
            (F4::B, F4::O) => F4::B,
            (F4::B, F4::I) => F4::A,
            (F4::B, F4::A) => F4::I,
            (F4::B, F4::B) => F4::O,
        }
    }

    /// Addition by the table of the field.
    fn add(&self, other: &Self) -> Self {
        match (*self, *other) {
            (F4::O, F4::O) => F4::O,
            (F4::O, F4::I) => F4::I,
            (F4::O, F4::A) => F4::A,
            (F4::O, F4::B) => F4::B,
            (F4::I, F4::O) => F4::I,
            (F4::I, F4::I) => F4::O,
            (F4::I, F4::A) => F4::B,
            (F4::I, F4::B) => F4::A,
            (F4::A, F4::O) => F4::A,
            (F4::A, F4::I) => F4::B,
            (F4::A, F4::A) => F4::O,
            (F4::A, F4::B) => F4::I,
            (F4::B, F4::O) => F4::B,
            (F4::B, F4::I) => F4::A,
            (F4::B, F4::A) => F4::I,
            (F4::B, F4::B) => F4::O,
        }
    }
}

impl AddSemigroup for F4 {
}

impl AddMonoid for F4 {
    open spec fn zero_spec() -> Self {
        F4::O
    }

    /// `O` is the zero of the field.
    fn zero() -> Self {
        F4::O
    }
}

impl AddGroup for F4 {
    open spec fn negate_spec(&self) -> Self {
        *self
    }

    /// Each value is its own negation.
    fn negate(&self) -> Self {
        *self
    }
}

impl AddComGroup for F4 {
}

impl MulMagma for F4 {
    open spec fn mul_spec(&self, other: &Self) -> Self {
        match (*self, *other) {
            (F4::O, F4::O) => F4::O,
            (F4::O, F4::I) => F4::O,
            (F4::O, F4::A) => F4::O,
            (F4::O, F4::B) => F4::O,
            (F4::I, F4::O) => F4::O,
            (F4::I, F4::I) => F4::I,
            (F4::I, F4::A) => F4::A,
            (F4::I, F4::B) => F4::B,
            (F4::A, F4::O) => F4::O,
            (F4::A, F4::I) => F4::A,
            (F4::A, F4::A) => F4::B,
            (F4::A, F4::B) => F4::I,
            (F4::B, F4::O) => F4::O,
            (F4::B, F4::I) => F4::B,
            (F4::B, F4::A) => F4::I,
            (F4::B, F4::B) => F4::A,
        }
    }

    /// Multiplication by the table of the field.
    fn mul(&self, other: &Self) -> Self {
        match (*self, *other) {
            (F4::O, F4::O) => F4::O,
            (F4::O, F4::I) => F4::O,
            (F4::O, F4::A) => F4::O,
            (F4::O, F4::B) => F4::O,
            (F4::I, F4::O) => F4::O,
            (F4::I, F4::I) => F4::I,
            (F4::I, F4::A) => F4::A,
            (F4::I, F4::B) => F4::B,
            (F4::A, F4::O) => F4::O,
            (F4::A, F4::I) => F4::A,
            (F4::A, F4::A) => F4::B,
            (F4::A, F4::B) => F4::I,
            (F4::B, F4::O) => F4::O,
            (F4::B, F4::I) => F4::B,
            (F4::B, F4::A) => F4::I,
            (F4::B, F4::B) => F4::A,
        }
    }
}

impl MulSemigroup for F4 {
}

impl MulMonoid for F4 {
    open spec fn one_spec() -> Self {
        F4::I
    }

    /// `I` is the one of the field.
    fn one() -> Self {
        F4::I
    }
}

/// The elements other than zero form a multiplicative group.
impl MulGroup for F4 {
    open spec fn is_invertible_spec(&self) -> bool {
        *self != F4::O
    }

    open spec fn invert_spec(&self) -> Self {
        match *self {
            F4::O => F4::O,
            F4::I => F4::I,
            F4::A => F4::B,
            F4::B => F4::A,
        }
    }

    /// `I` is its own inverse, `A` and `B` are each other's. `O` has no
    /// inverse; the match gives it back to stay total.
    fn invert(&self) -> Self {
        match *self {
            F4::O => F4::O,
            F4::I => F4::I,
            F4::A => F4::B,
            F4::B => F4::A,
        }
    }

    /// Every element but zero is invertible.
    fn is_invertible(&self) -> bool {
        match *self {
            F4::O => false,
            _ => true,
        }
    }
}

impl MulComGroup for F4 {
}

impl Ring for F4 {
}

impl ComRing for F4 {
}

impl Field for F4 {
    open spec fn is_invertible_spec(&self) -> bool {
        *self != F4::O
    }

    open spec fn invert_spec(&self) -> Self {
        match *self {
            F4::O => F4::O,
            F4::I => F4::I,
            F4::A => F4::B,
            F4::B => F4::A,
        }
    }

    /// `I` is its own inverse, `A` and `B` are each other's. `O` has no
    /// inverse; the match gives it back to stay total.
    fn invert(&self) -> Self {
        match *self {
            F4::O => F4::O,
            F4::I => F4::I,
            F4::A => F4::B,
            F4::B => F4::A,
        }
    }

    /// Every element but zero is invertible.
    fn is_invertible(&self) -> bool {
        match *self {
            F4::O => false,
            _ => true,
        }
    }
}

/// Addition in the field with four elements is associative.
pub proof fn lemma_f4_add_associative(x: F4, y: F4, z: F4)
    ensures
        x.add_spec(&y.add_spec(&z)) == x.add_spec(&y).add_spec(&z),
{
}

/// Multiplication in the field with four elements is associative.
pub proof fn lemma_f4_mul_associative(x: F4, y: F4, z: F4)
    ensures
        x.mul_spec(&y.mul_spec(&z)) == x.mul_spec(&y).mul_spec(&z),
{
}

/// In the field with four elements, zero is a left and a right identity of addition.
pub proof fn lemma_f4_add_identity(x: F4)
    ensures
        F4::zero_spec().add_spec(&x) == x,
        x.add_spec(&F4::zero_spec()) == x,
{
}

/// In the field with four elements, one is a left and a right identity of multiplication.
pub proof fn lemma_f4_mul_identity(x: F4)
    ensures
        F4::one_spec().mul_spec(&x) == x,
        x.mul_spec(&F4::one_spec()) == x,
{
}

/// In the field with four elements, the negation of a value is its left and its right
/// inverse under addition.
pub proof fn lemma_f4_negate_inverse(x: F4)
    ensures
        x.negate_spec().add_spec(&x) == F4::zero_spec(),
        x.add_spec(&x.negate_spec()) == F4::zero_spec(),
{
}

/// In the field with four elements, negating twice gives the value back.
pub proof fn lemma_f4_negate_involutive(x: F4)
    ensures
        x.negate_spec().negate_spec() == x,
{
}

/// In the field with four elements, the invertible values are those other than zero.
pub proof fn lemma_f4_invertible(x: F4)
    ensures
        MulGroup::is_invertible_spec(&x) <==> x != F4::zero_spec(),
        Field::is_invertible_spec(&x) <==> x != F4::zero_spec(),
{
}

/// In the field with four elements, the inverse of a value other than zero is its left and
/// its right inverse under multiplication, whether it is taken as an
/// element of the multiplicative group or of the field.
pub proof fn lemma_f4_invert_inverse(x: F4)
    requires
        x != F4::zero_spec(),
    ensures
        MulGroup::invert_spec(&x).mul_spec(&x) == F4::one_spec(),
        x.mul_spec(&MulGroup::invert_spec(&x)) == F4::one_spec(),
        Field::invert_spec(&x).mul_spec(&x) == F4::one_spec(),
        x.mul_spec(&Field::invert_spec(&x)) == F4::one_spec(),
{
}

/// Addition in the field with four elements is commutative.
pub proof fn lemma_f4_add_commutative(x: F4, y: F4)
    ensures
        x.add_spec(&y) == y.add_spec(&x),
{
}

/// Multiplication in the field with four elements is commutative.
pub proof fn lemma_f4_mul_commutative(x: F4, y: F4)
    ensures
        x.mul_spec(&y) == y.mul_spec(&x),
{
}

/// In the field with four elements, multiplication distributes over addition, from the left
/// and from the right.
pub proof fn lemma_f4_mul_distributive(x: F4, y: F4, z: F4)
    ensures
        x.mul_spec(&y.add_spec(&z)) == x.mul_spec(&y).add_spec(&x.mul_spec(&z)),
        y.add_spec(&z).mul_spec(&x) == y.mul_spec(&x).add_spec(&z.mul_spec(&x)),
{
}

/// In the field with four elements, zero and one differ.
pub proof fn lemma_f4_identities_distinct()
    ensures
        F4::zero_spec() != F4::one_spec(),
{
}

/// In the field with four elements, zero absorbs under multiplication, on either side.
pub proof fn lemma_f4_zero_absorbs(x: F4)
    ensures
        x.mul_spec(&F4::zero_spec()) == F4::zero_spec(),
        F4::zero_spec().mul_spec(&x) == F4::zero_spec(),
{
}

/// In the field with four elements, negation passes through multiplication: `x * -y` and
/// `-x * y` are `-(x * y)`, and `-x * -y` is `x * y`.
pub proof fn lemma_f4_mul_negation(x: F4, y: F4)
    ensures
        x.mul_spec(&y.negate_spec()) == x.mul_spec(&y).negate_spec(),
        x.negate_spec().mul_spec(&y) == x.mul_spec(&y).negate_spec(),
        x.negate_spec().mul_spec(&y.negate_spec()) == x.mul_spec(&y),
{
}

/// The field with four elements has no zero divisors: a product is zero only if a factor
/// is.
pub proof fn lemma_f4_no_zero_divisors(x: F4, y: F4)
    requires
        x.mul_spec(&y) == F4::zero_spec(),
    ensures
        x == F4::zero_spec() || y == F4::zero_spec(),
{
}

/// In the field with four elements, addition can be cancelled, and so can multiplication by
/// a value other than zero.
pub proof fn lemma_f4_cancellation(x: F4, y: F4, z: F4)
    ensures
        x.add_spec(&y) == z.add_spec(&y) ==> x == z,
        y != F4::zero_spec() && x.mul_spec(&y) == z.mul_spec(&y) ==> x == z,
{
}

/// In the field with four elements, each value added to itself is
/// zero.
pub proof fn lemma_f4_characteristic_two(x: F4)
    ensures
        x.add_spec(&x) == F4::zero_spec(),
{
}

} // verus!
