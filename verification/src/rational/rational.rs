//! Rational numbers as a field.
//!
//! A [`Rational`] holds a `BigRational` of the `num` crate, whose
//! numerator and denominator are integers of unbounded size, and all
//! arithmetic is that crate's. Beside it the value carries its model,
//! a [`Fraction`]: the contracts say which fraction each operation
//! returns, and equality of rationals is equivalence of their
//! fractions.
//!
//! What is assumed of `num` stands in the contracts of the private
//! functions named `ratio_...`; everything else is proved from them.

use vstd::prelude::*;
use vstd::std_specs::cmp::PartialEqSpecImpl;
use num::bigint::BigInt;
use num::rational::BigRational;
use num::traits::Zero;
use crate::com_group::add_com_group::AddComGroup;
use crate::com_group::mul_com_group::MulComGroup;
use crate::com_ring::com_ring::ComRing;
use crate::field::field::Field;
use crate::group::add_group::AddGroup;
use crate::group::mul_group::MulGroup;
use crate::magma::add_magma::AddMagma;
use crate::magma::mul_magma::MulMagma;
use crate::monoid::add_monoid::AddMonoid;
use crate::monoid::mul_monoid::MulMonoid;
use crate::rational::fraction::Fraction;
use crate::rational::fraction::lemma_equiv_congruent;
use crate::rational::fraction::lemma_equiv_transitive;
use crate::rational::fraction::lemma_negation_congruent;
use crate::rational::fraction::lemma_product_congruent;
use crate::rational::fraction::lemma_reciprocal_congruent;
use crate::rational::fraction::lemma_sum_congruent;
use crate::ring::ring::Ring;
use crate::semigroup::add_semigroup::AddSemigroup;
use crate::semigroup::mul_semigroup::MulSemigroup;

verus! {

/// `num`'s ratio of two integers, opaque to the verifier.
#[verifier::external_type_specification]
#[verifier::external_body]
#[verifier::reject_recursive_types(T)]
pub struct ExRatio<T>(num::rational::Ratio<T>);

/// `num`'s integer of unbounded size, opaque to the verifier.
#[verifier::external_type_specification]
#[verifier::external_body]
pub struct ExBigInt(num::bigint::BigInt);

/// The numerator that a `BigRational` holds.
pub uninterp spec fn ratio_numer(r: BigRational) -> int;

/// The denominator that a `BigRational` holds.
pub uninterp spec fn ratio_denom(r: BigRational) -> int;

/// The `BigRational` that `num` makes of an integer.
pub uninterp spec fn ratio_of_integer(n: i64) -> BigRational;

/// The `BigRational` that `num` returns for `a + b`.
pub uninterp spec fn ratio_sum(a: BigRational, b: BigRational) -> BigRational;

/// The `BigRational` that `num` returns for `a * b`.
pub uninterp spec fn ratio_product(a: BigRational, b: BigRational) -> BigRational;

/// The `BigRational` that `num` returns for `-a`.
pub uninterp spec fn ratio_negation(a: BigRational) -> BigRational;

/// The `BigRational` that `num` returns for the reciprocal of `a`.
pub uninterp spec fn ratio_reciprocal(a: BigRational) -> BigRational;

/// The fraction that a `BigRational` holds.
pub open spec fn ratio_fraction(r: BigRational) -> Fraction {
    Fraction::new(ratio_numer(r), ratio_denom(r))
}

/// `BigRational::from_integer` on a `BigInt` made of `n`: the ratio
/// `n/1`, as it stands.
#[verifier::external_body]
fn ratio_from_integer(n: i64) -> (r: BigRational)
    ensures
        r == ratio_of_integer(n),
        ratio_numer(r) == n,
        ratio_denom(r) == 1,
{
    BigRational::from_integer(BigInt::from(n))
}

/// `BigRational::new` on `BigInt`s made of `numer` and `denom`: the
/// ratio `numer/denom` in lowest terms, with a positive denominator.
/// It panics on a zero denominator.
#[verifier::external_body]
fn ratio_new(numer: i64, denom: i64) -> (r: BigRational)
    requires
        denom != 0,
    ensures
        ratio_denom(r) > 0,
        ratio_fraction(r).equiv(Fraction::new(numer as int, denom as int)),
{
    BigRational::new(BigInt::from(numer), BigInt::from(denom))
}

/// Whether the denominator of a `BigRational` is zero, by
/// `Zero::is_zero` on `denom()`. Only `new_raw` makes such a ratio.
#[verifier::external_body]
fn ratio_denom_is_zero(a: &BigRational) -> (r: bool)
    ensures
        r == (ratio_denom(*a) == 0),
{
    a.denom().is_zero()
}

/// `Ratio::reduced`: the same rational number in lowest terms, with a
/// positive denominator. It panics on a zero denominator.
#[verifier::external_body]
fn ratio_reduced(a: &BigRational) -> (r: BigRational)
    requires
        ratio_denom(*a) != 0,
    ensures
        ratio_denom(r) > 0,
        ratio_fraction(r).equiv(ratio_fraction(*a)),
{
    a.reduced()
}

/// `+` on two `BigRational`s: their sum as rational numbers, with a
/// positive denominator. It divides by the denominators, so neither
/// may be zero.
#[verifier::external_body]
fn ratio_add(a: &BigRational, b: &BigRational) -> (r: BigRational)
    requires
        ratio_denom(*a) > 0,
        ratio_denom(*b) > 0,
    ensures
        r == ratio_sum(*a, *b),
        ratio_denom(r) > 0,
        ratio_fraction(r).equiv(ratio_fraction(*a).sum(ratio_fraction(*b))),
{
    a + b
}

/// `*` on two `BigRational`s: their product as rational numbers, with
/// a positive denominator. It divides by common divisors of the
/// numerators and denominators, so no denominator may be zero.
#[verifier::external_body]
fn ratio_mul(a: &BigRational, b: &BigRational) -> (r: BigRational)
    requires
        ratio_denom(*a) > 0,
        ratio_denom(*b) > 0,
    ensures
        r == ratio_product(*a, *b),
        ratio_denom(r) > 0,
        ratio_fraction(r).equiv(ratio_fraction(*a).product(ratio_fraction(*b))),
{
    a * b
}

/// `-` on a `BigRational`: the numerator negated, the denominator
/// kept.
#[verifier::external_body]
fn ratio_neg(a: &BigRational) -> (r: BigRational)
    ensures
        r == ratio_negation(*a),
        ratio_fraction(r) == ratio_fraction(*a).negation(),
{
    -a
}

/// `Ratio::recip`: numerator and denominator exchanged, and both
/// negated if the numerator was negative. It panics on a zero
/// numerator.
#[verifier::external_body]
fn ratio_recip(a: &BigRational) -> (r: BigRational)
    requires
        ratio_numer(*a) != 0,
    ensures
        r == ratio_reciprocal(*a),
        ratio_fraction(r) == ratio_fraction(*a).reciprocal(),
{
    a.recip()
}

/// `==` on two `BigRational`s with positive denominators: whether
/// they are the same rational number.
#[verifier::external_body]
fn ratio_eq(a: &BigRational, b: &BigRational) -> (r: bool)
    requires
        ratio_denom(*a) > 0,
        ratio_denom(*b) > 0,
    ensures
        r == ratio_fraction(*a).equiv(ratio_fraction(*b)),
{
    a == b
}

/// `Clone::clone` on a `BigRational`: a ratio with the same numerator
/// and the same denominator.
#[verifier::external_body]
fn ratio_clone(a: &BigRational) -> (r: BigRational)
    ensures
        r == *a,
{
    a.clone()
}

/// A rational number of unbounded size.
pub struct Rational {
    ratio: BigRational,
    model: Ghost<Fraction>,
}

impl View for Rational {
    type V = Fraction;

    /// The fraction that the value stands for. Its denominator is
    /// positive; it need not be in lowest terms.
    closed spec fn view(&self) -> Fraction {
        self.model@
    }
}

impl Rational {
    /// The ratio stands for the same rational number as the model,
    /// and both denominators are positive.
    #[verifier::type_invariant]
    spec fn well_formed(self) -> bool {
        &&& ratio_denom(self.ratio) > 0
        &&& self.model@.denom > 0
        &&& ratio_fraction(self.ratio).equiv(self.model@)
    }

    /// The rational number `n/1`.
    pub fn from_integer(n: i64) -> (r: Self)
        ensures
            r@ == Fraction::of_integer(n as int),
    {
        Rational { ratio: ratio_from_integer(n), model: Ghost(Fraction::of_integer(n as int)) }
    }

    /// The rational number `numer/denom`, or `None` for a zero
    /// denominator.
    pub fn new(numer: i64, denom: i64) -> (r: Option<Self>)
        ensures
            r is Some <==> denom != 0,
            r matches Some(q) ==> q@.denom > 0 && q@.equiv(Fraction::new(numer as int, denom as int)),
    {
        if denom == 0 {
            None
        } else {
            let ratio = ratio_new(numer, denom);
            Some(Rational { ratio, model: Ghost(ratio_fraction(ratio)) })
        }
    }

    /// The rational number that `ratio` stands for, or `None` if its
    /// denominator is zero.
    pub fn from_ratio(ratio: &BigRational) -> (r: Option<Self>)
        ensures
            r is Some <==> ratio_denom(*ratio) != 0,
            r matches Some(q) ==> q@.denom > 0 && q@.equiv(ratio_fraction(*ratio)),
    {
        if ratio_denom_is_zero(ratio) {
            None
        } else {
            let reduced = ratio_reduced(ratio);
            Some(Rational { ratio: reduced, model: Ghost(ratio_fraction(reduced)) })
        }
    }

    /// The value as a `BigRational`. It stands for the same rational
    /// number as the view.
    pub fn as_ratio(&self) -> (r: &BigRational)
        ensures
            ratio_denom(*r) > 0,
            self@.denom > 0,
            ratio_fraction(*r).equiv(self@),
    {
        proof {
            use_type_invariant(self);
        }
        &self.ratio
    }
}

impl Clone for Rational {
    fn clone(&self) -> (r: Self)
        ensures
            r == *self,
    {
        proof {
            use_type_invariant(self);
        }
        Rational { ratio: ratio_clone(&self.ratio), model: self.model }
    }
}

impl PartialEq for Rational {
    /// Two rationals are equal if they are the same rational number,
    /// whatever the terms they are written in.
    fn eq(&self, other: &Self) -> (r: bool) {
        proof {
            use_type_invariant(self);
            use_type_invariant(other);
            lemma_equiv_congruent(
                ratio_fraction(self.ratio),
                self@,
                ratio_fraction(other.ratio),
                other@,
            );
        }
        ratio_eq(&self.ratio, &other.ratio)
    }
}

impl PartialEqSpecImpl for Rational {
    open spec fn obeys_eq_spec() -> bool {
        true
    }

    open spec fn eq_spec(&self, other: &Self) -> bool {
        self@.equiv(other@)
    }
}

impl Rational {
    /// Whether the rational number is other than zero.
    fn is_nonzero(&self) -> (r: bool)
        ensures
            r == (self@.numer != 0),
    {
        let zero = ratio_from_integer(0);
        proof {
            use_type_invariant(self);
            lemma_reciprocal_congruent(ratio_fraction(self.ratio), self@);
            assert(ratio_fraction(self.ratio).equiv(ratio_fraction(zero)) <==> ratio_numer(self.ratio)
                == 0) by (nonlinear_arith)
                requires
                    ratio_numer(zero) == 0,
                    ratio_denom(zero) == 1,
                    ratio_fraction(self.ratio).equiv(ratio_fraction(zero)) <==> ratio_numer(
                        self.ratio,
                    ) * ratio_denom(zero) == ratio_numer(zero) * ratio_denom(self.ratio),
            ;
        }
        !ratio_eq(&self.ratio, &zero)
    }

    /// The reciprocal of a rational number other than zero.
    fn recip(&self) -> (r: Self)
        requires
            self@.numer != 0,
        ensures
            r == self.recip_spec(),
    {
        proof {
            use_type_invariant(self);
            lemma_reciprocal_congruent(ratio_fraction(self.ratio), self@);
        }
        Rational { ratio: ratio_recip(&self.ratio), model: Ghost(self@.reciprocal()) }
    }

    /// The value that `recip` returns.
    spec fn recip_spec(&self) -> Self {
        Rational { ratio: ratio_reciprocal(self.ratio), model: Ghost(self@.reciprocal()) }
    }
}

impl AddMagma for Rational {
    closed spec fn add_spec(&self, other: &Self) -> Self {
        Rational { ratio: ratio_sum(self.ratio, other.ratio), model: Ghost(self@.sum(other@)) }
    }

    /// Addition of rational numbers.
    fn add(&self, other: &Self) -> Self {
        proof {
            use_type_invariant(self);
            use_type_invariant(other);
        }
        let ratio = ratio_add(&self.ratio, &other.ratio);
        proof {
            let sum = ratio_fraction(self.ratio).sum(ratio_fraction(other.ratio));
            lemma_sum_congruent(ratio_fraction(self.ratio), self@, ratio_fraction(other.ratio), other@);
            assert(sum.denom > 0 && self@.sum(other@).denom > 0) by (nonlinear_arith)
                requires
                    sum.denom == ratio_denom(self.ratio) * ratio_denom(other.ratio),
                    self@.sum(other@).denom == self@.denom * other@.denom,
                    ratio_denom(self.ratio) > 0,
                    ratio_denom(other.ratio) > 0,
                    self@.denom > 0,
                    other@.denom > 0,
            ;
            lemma_equiv_transitive(ratio_fraction(ratio), sum, self@.sum(other@));
        }
        Rational { ratio, model: Ghost(self@.sum(other@)) }
    }
}

impl AddSemigroup for Rational {
}

impl AddMonoid for Rational {
    closed spec fn zero_spec() -> Self {
        Rational { ratio: ratio_of_integer(0), model: Ghost(Fraction::of_integer(0)) }
    }

    /// The rational number `0/1`.
    fn zero() -> Self {
        Rational { ratio: ratio_from_integer(0), model: Ghost(Fraction::of_integer(0)) }
    }
}

impl AddGroup for Rational {
    closed spec fn negate_spec(&self) -> Self {
        Rational { ratio: ratio_negation(self.ratio), model: Ghost(self@.negation()) }
    }

    /// Negation of a rational number.
    fn negate(&self) -> Self {
        proof {
            use_type_invariant(self);
            lemma_negation_congruent(ratio_fraction(self.ratio), self@);
        }
        Rational { ratio: ratio_neg(&self.ratio), model: Ghost(self@.negation()) }
    }
}

impl AddComGroup for Rational {
}

impl MulMagma for Rational {
    closed spec fn mul_spec(&self, other: &Self) -> Self {
        Rational {
            ratio: ratio_product(self.ratio, other.ratio),
            model: Ghost(self@.product(other@)),
        }
    }

    /// Multiplication of rational numbers.
    fn mul(&self, other: &Self) -> Self {
        proof {
            use_type_invariant(self);
            use_type_invariant(other);
        }
        let ratio = ratio_mul(&self.ratio, &other.ratio);
        proof {
            let product = ratio_fraction(self.ratio).product(ratio_fraction(other.ratio));
            lemma_product_congruent(
                ratio_fraction(self.ratio),
                self@,
                ratio_fraction(other.ratio),
                other@,
            );
            assert(product.denom > 0 && self@.product(other@).denom > 0) by (nonlinear_arith)
                requires
                    product.denom == ratio_denom(self.ratio) * ratio_denom(other.ratio),
                    self@.product(other@).denom == self@.denom * other@.denom,
                    ratio_denom(self.ratio) > 0,
                    ratio_denom(other.ratio) > 0,
                    self@.denom > 0,
                    other@.denom > 0,
            ;
            lemma_equiv_transitive(ratio_fraction(ratio), product, self@.product(other@));
        }
        Rational { ratio, model: Ghost(self@.product(other@)) }
    }
}

impl MulSemigroup for Rational {
}

impl MulMonoid for Rational {
    closed spec fn one_spec() -> Self {
        Rational { ratio: ratio_of_integer(1), model: Ghost(Fraction::of_integer(1)) }
    }

    /// The rational number `1/1`.
    fn one() -> Self {
        Rational { ratio: ratio_from_integer(1), model: Ghost(Fraction::of_integer(1)) }
    }
}

/// The rational numbers other than zero form a multiplicative group.
impl MulGroup for Rational {
    closed spec fn is_invertible_spec(&self) -> bool {
        self@.numer != 0
    }

    closed spec fn invert_spec(&self) -> Self {
        self.recip_spec()
    }

    /// The reciprocal of a rational number other than zero.
    fn invert(&self) -> Self {
        self.recip()
    }

    /// Every rational number but zero is invertible.
    fn is_invertible(&self) -> bool {
        self.is_nonzero()
    }
}

impl MulComGroup for Rational {
}

impl Ring for Rational {
}

impl ComRing for Rational {
}

impl Field for Rational {
    closed spec fn is_invertible_spec(&self) -> bool {
        self@.numer != 0
    }

    closed spec fn invert_spec(&self) -> Self {
        self.recip_spec()
    }

    /// The reciprocal of a rational number other than zero.
    fn invert(&self) -> Self {
        self.recip()
    }

    /// Every rational number but zero is invertible.
    fn is_invertible(&self) -> bool {
        self.is_nonzero()
    }
}

/// The fractions that the operations on rational numbers return, and
/// those of zero and one.
pub proof fn lemma_rational_operations(x: Rational, y: Rational)
    ensures
        Rational::zero_spec()@ == Fraction::of_integer(0),
        Rational::one_spec()@ == Fraction::of_integer(1),
        x.add_spec(&y)@ == x@.sum(y@),
        x.mul_spec(&y)@ == x@.product(y@),
        x.negate_spec()@ == x@.negation(),
        MulGroup::is_invertible_spec(&x) == (x@.numer != 0),
        Field::is_invertible_spec(&x) == (x@.numer != 0),
        MulGroup::invert_spec(&x)@ == x@.reciprocal(),
        Field::invert_spec(&x)@ == x@.reciprocal(),
        MulGroup::invert_spec(&x) == Field::invert_spec(&x),
{
}

} // verus!
