//! The field laws of the rational numbers.
//!
//! Each law is stated over the operations of [`Rational`] and over its
//! equality, which is equivalence of fractions, and follows from the
//! same law of fractions.

use vstd::prelude::*;
use vstd::std_specs::cmp::PartialEqSpec;
use crate::field::field::Field;
use crate::group::add_group::AddGroup;
use crate::group::mul_group::MulGroup;
use crate::magma::add_magma::AddMagma;
use crate::magma::mul_magma::MulMagma;
use crate::monoid::add_monoid::AddMonoid;
use crate::monoid::mul_monoid::MulMonoid;
use crate::rational::fraction::lemma_equiv_zero;
use crate::rational::fraction::lemma_negation_involutive;
use crate::rational::fraction::lemma_product_associative;
use crate::rational::fraction::lemma_product_cancel;
use crate::rational::fraction::lemma_product_commutative;
use crate::rational::fraction::lemma_product_distributive;
use crate::rational::fraction::lemma_product_identity;
use crate::rational::fraction::lemma_product_inverse;
use crate::rational::fraction::lemma_product_minus_one;
use crate::rational::fraction::lemma_product_negation;
use crate::rational::fraction::lemma_product_no_zero_divisors;
use crate::rational::fraction::lemma_product_zero;
use crate::rational::fraction::lemma_sum_associative;
use crate::rational::fraction::lemma_sum_cancel;
use crate::rational::fraction::lemma_sum_commutative;
use crate::rational::fraction::lemma_sum_identity;
use crate::rational::fraction::lemma_sum_inverse;
use crate::rational::rational::lemma_rational_operations;
use crate::rational::rational::Rational;

verus! {

/// Addition of rational numbers is associative.
pub proof fn lemma_rational_add_associative(x: Rational, y: Rational, z: Rational)
    ensures
        x.add_spec(&y.add_spec(&z)).eq_spec(&x.add_spec(&y).add_spec(&z)),
{
    lemma_rational_operations(y, z);
    lemma_rational_operations(x, y.add_spec(&z));
    lemma_rational_operations(x, y);
    lemma_rational_operations(x.add_spec(&y), z);
    lemma_sum_associative(x@, y@, z@);
}

/// Multiplication of rational numbers is associative.
pub proof fn lemma_rational_mul_associative(x: Rational, y: Rational, z: Rational)
    ensures
        x.mul_spec(&y.mul_spec(&z)).eq_spec(&x.mul_spec(&y).mul_spec(&z)),
{
    lemma_rational_operations(y, z);
    lemma_rational_operations(x, y.mul_spec(&z));
    lemma_rational_operations(x, y);
    lemma_rational_operations(x.mul_spec(&y), z);
    lemma_product_associative(x@, y@, z@);
}

/// Zero is a left and a right identity of the addition of rational
/// numbers.
pub proof fn lemma_rational_add_identity(x: Rational)
    ensures
        Rational::zero_spec().add_spec(&x).eq_spec(&x),
        x.add_spec(&Rational::zero_spec()).eq_spec(&x),
{
    lemma_rational_operations(Rational::zero_spec(), x);
    lemma_rational_operations(x, Rational::zero_spec());
    lemma_sum_identity(x@);
}

/// One is a left and a right identity of the multiplication of
/// rational numbers.
pub proof fn lemma_rational_mul_identity(x: Rational)
    ensures
        Rational::one_spec().mul_spec(&x).eq_spec(&x),
        x.mul_spec(&Rational::one_spec()).eq_spec(&x),
{
    lemma_rational_operations(Rational::one_spec(), x);
    lemma_rational_operations(x, Rational::one_spec());
    lemma_product_identity(x@);
}

/// The negation of a rational number is its left and its right
/// inverse under addition.
pub proof fn lemma_rational_negate_inverse(x: Rational)
    ensures
        x.negate_spec().add_spec(&x).eq_spec(&Rational::zero_spec()),
        x.add_spec(&x.negate_spec()).eq_spec(&Rational::zero_spec()),
{
    lemma_rational_operations(x, x);
    lemma_rational_operations(x.negate_spec(), x);
    lemma_rational_operations(x, x.negate_spec());
    lemma_sum_inverse(x@);
}

/// Negating a rational number twice gives a number equal to it.
pub proof fn lemma_rational_negate_involutive(x: Rational)
    ensures
        x.negate_spec().negate_spec().eq_spec(&x),
{
    lemma_rational_operations(x, x);
    lemma_rational_operations(x.negate_spec(), x);
    lemma_negation_involutive(x@);
}

/// The invertible rational numbers are those that are not equal to
/// zero.
pub proof fn lemma_rational_invertible(x: Rational)
    ensures
        MulGroup::is_invertible_spec(&x) <==> !x.eq_spec(&Rational::zero_spec()),
        Field::is_invertible_spec(&x) <==> !x.eq_spec(&Rational::zero_spec()),
{
    lemma_rational_operations(x, x);
    lemma_equiv_zero(x@);
}

/// The reciprocal of an invertible rational number is its left and
/// its right inverse under multiplication, whether it is taken as an
/// element of the multiplicative group or of the field.
pub proof fn lemma_rational_invert_inverse(x: Rational)
    requires
        !x.eq_spec(&Rational::zero_spec()),
    ensures
        MulGroup::invert_spec(&x).mul_spec(&x).eq_spec(&Rational::one_spec()),
        x.mul_spec(&MulGroup::invert_spec(&x)).eq_spec(&Rational::one_spec()),
        Field::invert_spec(&x).mul_spec(&x).eq_spec(&Rational::one_spec()),
        x.mul_spec(&Field::invert_spec(&x)).eq_spec(&Rational::one_spec()),
{
    lemma_rational_invertible(x);
    lemma_rational_operations(x, x);
    lemma_rational_operations(MulGroup::invert_spec(&x), x);
    lemma_rational_operations(x, MulGroup::invert_spec(&x));
    lemma_product_inverse(x@);
}

/// Addition of rational numbers is commutative.
pub proof fn lemma_rational_add_commutative(x: Rational, y: Rational)
    ensures
        x.add_spec(&y).eq_spec(&y.add_spec(&x)),
{
    lemma_rational_operations(x, y);
    lemma_rational_operations(y, x);
    lemma_sum_commutative(x@, y@);
}

/// Multiplication of rational numbers is commutative.
pub proof fn lemma_rational_mul_commutative(x: Rational, y: Rational)
    ensures
        x.mul_spec(&y).eq_spec(&y.mul_spec(&x)),
{
    lemma_rational_operations(x, y);
    lemma_rational_operations(y, x);
    lemma_product_commutative(x@, y@);
}

/// Multiplication of rational numbers distributes over their
/// addition, from the left and from the right.
pub proof fn lemma_rational_mul_distributive(x: Rational, y: Rational, z: Rational)
    ensures
        x.mul_spec(&y.add_spec(&z)).eq_spec(&x.mul_spec(&y).add_spec(&x.mul_spec(&z))),
        y.add_spec(&z).mul_spec(&x).eq_spec(&y.mul_spec(&x).add_spec(&z.mul_spec(&x))),
{
    lemma_rational_operations(y, z);
    lemma_rational_operations(x, y.add_spec(&z));
    lemma_rational_operations(y.add_spec(&z), x);
    lemma_rational_operations(x, y);
    lemma_rational_operations(x, z);
    lemma_rational_operations(y, x);
    lemma_rational_operations(z, x);
    lemma_rational_operations(x.mul_spec(&y), x.mul_spec(&z));
    lemma_rational_operations(y.mul_spec(&x), z.mul_spec(&x));
    lemma_product_distributive(x@, y@, z@);
}

/// Zero and one are different rational numbers.
pub proof fn lemma_rational_identities_distinct()
    ensures
        !Rational::zero_spec().eq_spec(&Rational::one_spec()),
{
    lemma_rational_operations(Rational::zero_spec(), Rational::one_spec());
}

/// Zero absorbs under the multiplication of rational numbers, on
/// either side.
pub proof fn lemma_rational_zero_absorbs(x: Rational)
    ensures
        x.mul_spec(&Rational::zero_spec()).eq_spec(&Rational::zero_spec()),
        Rational::zero_spec().mul_spec(&x).eq_spec(&Rational::zero_spec()),
{
    lemma_rational_operations(x, Rational::zero_spec());
    lemma_rational_operations(Rational::zero_spec(), x);
    lemma_product_zero(x@);
}

/// Negation of rational numbers passes through their multiplication:
/// `x * -y` and `-x * y` are `-(x * y)`, and `-x * -y` is `x * y`.
pub proof fn lemma_rational_mul_negation(x: Rational, y: Rational)
    ensures
        x.mul_spec(&y.negate_spec()).eq_spec(&x.mul_spec(&y).negate_spec()),
        x.negate_spec().mul_spec(&y).eq_spec(&x.mul_spec(&y).negate_spec()),
        x.negate_spec().mul_spec(&y.negate_spec()).eq_spec(&x.mul_spec(&y)),
{
    lemma_rational_operations(x, y);
    lemma_rational_operations(y, x);
    lemma_rational_operations(x, y.negate_spec());
    lemma_rational_operations(x.negate_spec(), y);
    lemma_rational_operations(x.negate_spec(), y.negate_spec());
    lemma_rational_operations(x.mul_spec(&y), x);
    lemma_product_negation(x@, y@);
}

/// Multiplying a rational number by the negation of one negates it,
/// on either side, and the negation of one times itself is one.
pub proof fn lemma_rational_one_negation(x: Rational)
    ensures
        Rational::one_spec().negate_spec().mul_spec(&x).eq_spec(&x.negate_spec()),
        x.mul_spec(&Rational::one_spec().negate_spec()).eq_spec(&x.negate_spec()),
        Rational::one_spec().negate_spec().mul_spec(&Rational::one_spec().negate_spec()).eq_spec(
            &Rational::one_spec(),
        ),
{
    let minus_one = Rational::one_spec().negate_spec();
    lemma_rational_operations(Rational::one_spec(), x);
    lemma_rational_operations(x, x);
    lemma_rational_operations(minus_one, x);
    lemma_rational_operations(x, minus_one);
    lemma_rational_operations(minus_one, minus_one);
    lemma_product_minus_one(x@);
    lemma_product_minus_one(minus_one@);
}

/// The rational numbers have no zero divisors: a product is zero only
/// if a factor is.
pub proof fn lemma_rational_no_zero_divisors(x: Rational, y: Rational)
    requires
        x.mul_spec(&y).eq_spec(&Rational::zero_spec()),
    ensures
        x.eq_spec(&Rational::zero_spec()) || y.eq_spec(&Rational::zero_spec()),
{
    lemma_rational_operations(x, y);
    lemma_product_no_zero_divisors(x@, y@);
}

/// Addition of a rational number can be cancelled, and so can
/// multiplication by one other than zero.
pub proof fn lemma_rational_cancellation(x: Rational, y: Rational, z: Rational)
    requires
        y@.denom != 0,
    ensures
        x.add_spec(&y).eq_spec(&z.add_spec(&y)) ==> x.eq_spec(&z),
        !y.eq_spec(&Rational::zero_spec()) && x.mul_spec(&y).eq_spec(&z.mul_spec(&y)) ==> x.eq_spec(
            &z,
        ),
{
    lemma_rational_operations(x, y);
    lemma_rational_operations(z, y);
    lemma_equiv_zero(y@);
    if x.add_spec(&y).eq_spec(&z.add_spec(&y)) {
        lemma_sum_cancel(x@, y@, z@);
    }
    if !y.eq_spec(&Rational::zero_spec()) && x.mul_spec(&y).eq_spec(&z.mul_spec(&y)) {
        lemma_product_cancel(x@, y@, z@);
    }
}

} // verus!
