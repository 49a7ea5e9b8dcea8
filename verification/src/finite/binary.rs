//! The binary field.
//!
//! The truth values `F` and `T` form a field with exclusive or as
//! addition and conjunction as multiplication. It is known as F2 or
//! GF(2), and is the smallest field there is.
//!
//! | `+` | F | T |     | `*` | F | T |
//! |-----|---|---|-----|-----|---|---|
//! | F   | F | T |     | F   | F | F |
//! | T   | T | F |     | T   | F | T |
//!
//! Each value is its own negation, since `x + x = F`. The one
//! invertible value is `T`, which is its own inverse; `F` is the zero
//! of the field and has no inverse.

use vstd::prelude::*;
use vstd::std_specs::cmp::PartialEqSpecImpl;
use crate::com_group::add_com_group::AddComGroup;
use crate::com_group::mul_com_group::MulComGroup;
use crate::com_ring::com_ring::ComRing;
use crate::field::field::Field;
use crate::group::add_group::AddGroup;
use crate::group::mul_group::MulGroup;
use crate::magma::add_magma::AddMagma;
use crate::magma::mul_magma::MulMagma;
use crate::monoid::add_monoid::AddMonoid;
use crate::monoid::mul_monoid::MulMonoid;
use crate::ring::ring::Ring;
use crate::semigroup::add_semigroup::AddSemigroup;
use crate::semigroup::mul_semigroup::MulSemigroup;

verus! {

/// The binary field F2.
#[derive(Clone, Copy, Debug, Eq)]
pub enum F2 {
    /// False, the zero of the field.
    F,
    /// True, the one of the field.
    T,
}

impl PartialEq for F2 {
    fn eq(&self, other: &Self) -> (r: bool) {
        match (*self, *other) {
            (F2::F, F2::F) => true,
            (F2::T, F2::T) => true,
            _ => false,
        }
    }
}

impl PartialEqSpecImpl for F2 {
    open spec fn obeys_eq_spec() -> bool {
        true
    }

    open spec fn eq_spec(&self, other: &Self) -> bool {
        *self == *other
    }
}

impl AddMagma for F2 {
    open spec fn add_spec(&self, other: &Self) -> Self {
        match (*self, *other) {
            (F2::F, F2::F) => F2::F,
            (F2::F, F2::T) => F2::T,
            (F2::T, F2::F) => F2::T,
            (F2::T, F2::T) => F2::F,
        }
    }

    /// Addition is exclusive or.
    fn add(&self, other: &Self) -> Self {
        match (*self, *other) {
            (F2::F, F2::F) => F2::F,
            (F2::F, F2::T) => F2::T,
            (F2::T, F2::F) => F2::T,
            (F2::T, F2::T) => F2::F,
        }
    }
}

impl AddSemigroup for F2 {
}

impl AddMonoid for F2 {
    open spec fn zero_spec() -> Self {
        F2::F
    }

    /// `F` is the zero of the field.
    fn zero() -> Self {
        F2::F
    }
}

impl AddGroup for F2 {
    open spec fn negate_spec(&self) -> Self {
        *self
    }

    /// Each value is its own negation.
    fn negate(&self) -> Self {
        *self
    }
}

impl AddComGroup for F2 {
}

impl MulMagma for F2 {
    open spec fn mul_spec(&self, other: &Self) -> Self {
        match (*self, *other) {
            (F2::F, F2::F) => F2::F,
            (F2::F, F2::T) => F2::F,
            (F2::T, F2::F) => F2::F,
            (F2::T, F2::T) => F2::T,
        }
    }

    /// Multiplication is conjunction.
    fn mul(&self, other: &Self) -> Self {
        match (*self, *other) {
            (F2::F, F2::F) => F2::F,
            (F2::F, F2::T) => F2::F,
            (F2::T, F2::F) => F2::F,
            (F2::T, F2::T) => F2::T,
        }
    }
}

impl MulSemigroup for F2 {
}

impl MulMonoid for F2 {
    open spec fn one_spec() -> Self {
        F2::T
    }

    /// `T` is the one of the field.
    fn one() -> Self {
        F2::T
    }
}

/// The elements other than zero form a multiplicative group.
impl MulGroup for F2 {
    open spec fn is_invertible_spec(&self) -> bool {
        *self != F2::F
    }

    open spec fn invert_spec(&self) -> Self {
        match *self {
            F2::F => F2::F,
            F2::T => F2::T,
        }
    }

    /// The inverse of `T` is `T`. `F` has no inverse; the match gives it
    /// back to stay total.
    fn invert(&self) -> Self {
        match *self {
            F2::F => F2::F,
            F2::T => F2::T,
        }
    }

    /// Every element but zero is invertible.
    fn is_invertible(&self) -> bool {
        match *self {
            F2::F => false,
            _ => true,
        }
    }
}

impl MulComGroup for F2 {
}

impl Ring for F2 {
}

impl ComRing for F2 {
}

impl Field for F2 {
    open spec fn is_invertible_spec(&self) -> bool {
        *self != F2::F
    }

    open spec fn invert_spec(&self) -> Self {
        match *self {
            F2::F => F2::F,
            F2::T => F2::T,
        }
    }

    /// The inverse of `T` is `T`. `F` has no inverse; the match gives it
    /// back to stay total.
    fn invert(&self) -> Self {
        match *self {
            F2::F => F2::F,
            F2::T => F2::T,
        }
    }

    /// Every element but zero is invertible.
    fn is_invertible(&self) -> bool {
        match *self {
            F2::F => false,
            _ => true,
        }
    }
}

/// Addition in the binary field is associative.
pub proof fn lemma_f2_add_associative(x: F2, y: F2, z: F2)
    ensures
        x.add_spec(&y.add_spec(&z)) == x.add_spec(&y).add_spec(&z),
{
}

/// Multiplication in the binary field is associative.
pub proof fn lemma_f2_mul_associative(x: F2, y: F2, z: F2)
    ensures
        x.mul_spec(&y.mul_spec(&z)) == x.mul_spec(&y).mul_spec(&z),
{
}

/// In the binary field, zero is a left and a right identity of addition.
pub proof fn lemma_f2_add_identity(x: F2)
    ensures
        F2::zero_spec().add_spec(&x) == x,
        x.add_spec(&F2::zero_spec()) == x,
{
}

/// In the binary field, one is a left and a right identity of multiplication.
pub proof fn lemma_f2_mul_identity(x: F2)
    ensures
        F2::one_spec().mul_spec(&x) == x,
        x.mul_spec(&F2::one_spec()) == x,
{
}

/// In the binary field, the negation of a value is its left and its right
/// inverse under addition.
pub proof fn lemma_f2_negate_inverse(x: F2)
    ensures
        x.negate_spec().add_spec(&x) == F2::zero_spec(),
        x.add_spec(&x.negate_spec()) == F2::zero_spec(),
{
}

/// In the binary field, negating twice gives the value back.
pub proof fn lemma_f2_negate_involutive(x: F2)
    ensures
        x.negate_spec().negate_spec() == x,
{
}

/// In the binary field, the invertible values are those other than zero.
pub proof fn lemma_f2_invertible(x: F2)
    ensures
        MulGroup::is_invertible_spec(&x) <==> x != F2::zero_spec(),
        Field::is_invertible_spec(&x) <==> x != F2::zero_spec(),
{
}

/// In the binary field, the inverse of a value other than zero is its left and
/// its right inverse under multiplication, whether it is taken as an
/// element of the multiplicative group or of the field.
pub proof fn lemma_f2_invert_inverse(x: F2)
    requires
        x != F2::zero_spec(),
    ensures
        MulGroup::invert_spec(&x).mul_spec(&x) == F2::one_spec(),
        x.mul_spec(&MulGroup::invert_spec(&x)) == F2::one_spec(),
        Field::invert_spec(&x).mul_spec(&x) == F2::one_spec(),
        x.mul_spec(&Field::invert_spec(&x)) == F2::one_spec(),
{
}

/// Addition in the binary field is commutative.
pub proof fn lemma_f2_add_commutative(x: F2, y: F2)
    ensures
        x.add_spec(&y) == y.add_spec(&x),
{
}

/// Multiplication in the binary field is commutative.
pub proof fn lemma_f2_mul_commutative(x: F2, y: F2)
    ensures
        x.mul_spec(&y) == y.mul_spec(&x),
{
}

/// In the binary field, multiplication distributes over addition, from the left
/// and from the right.
pub proof fn lemma_f2_mul_distributive(x: F2, y: F2, z: F2)
    ensures
        x.mul_spec(&y.add_spec(&z)) == x.mul_spec(&y).add_spec(&x.mul_spec(&z)),
        y.add_spec(&z).mul_spec(&x) == y.mul_spec(&x).add_spec(&z.mul_spec(&x)),
{
}

/// In the binary field, zero and one differ.
pub proof fn lemma_f2_identities_distinct()
    ensures
        F2::zero_spec() != F2::one_spec(),
{
}

/// In the binary field, zero absorbs under multiplication, on either side.
pub proof fn lemma_f2_zero_absorbs(x: F2)
    ensures
        x.mul_spec(&F2::zero_spec()) == F2::zero_spec(),
        F2::zero_spec().mul_spec(&x) == F2::zero_spec(),
{
}

/// In the binary field, negation passes through multiplication: `x * -y` and
/// `-x * y` are `-(x * y)`, and `-x * -y` is `x * y`.
pub proof fn lemma_f2_mul_negation(x: F2, y: F2)
    ensures
        x.mul_spec(&y.negate_spec()) == x.mul_spec(&y).negate_spec(),
        x.negate_spec().mul_spec(&y) == x.mul_spec(&y).negate_spec(),
        x.negate_spec().mul_spec(&y.negate_spec()) == x.mul_spec(&y),
{
}

/// The binary field has no zero divisors: a product is zero only if a factor
/// is.
pub proof fn lemma_f2_no_zero_divisors(x: F2, y: F2)
    requires
        x.mul_spec(&y) == F2::zero_spec(),
    ensures
        x == F2::zero_spec() || y == F2::zero_spec(),
{
}

/// In the binary field, addition can be cancelled, and so can multiplication by
/// a value other than zero.
pub proof fn lemma_f2_cancellation(x: F2, y: F2, z: F2)
    ensures
        x.add_spec(&y) == z.add_spec(&y) ==> x == z,
        y != F2::zero_spec() && x.mul_spec(&y) == z.mul_spec(&y) ==> x == z,
{
}

/// In the binary field, each value added to itself is zero.
pub proof fn lemma_f2_characteristic_two(x: F2)
    ensures
        x.add_spec(&x) == F2::zero_spec(),
{
}

} // verus!
