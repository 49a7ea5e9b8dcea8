use num::bigint::BigInt;
use num::rational::BigRational;
use un_algebra::com_group::add_com_group::AddComGroup;
use un_algebra::com_group::mul_com_group::MulComGroup;
use un_algebra::com_ring::com_ring::ComRing;
use un_algebra::field::field::Field;
use un_algebra::group::add_group::AddGroup;
use un_algebra::group::mul_group::MulGroup;
use un_algebra::group::mul_group::NotInvertible;
use un_algebra::magma::add_magma::AddMagma;
use un_algebra::magma::mul_magma::MulMagma;
use un_algebra::monoid::add_monoid::AddMonoid;
use un_algebra::monoid::mul_monoid::MulMonoid;
use un_algebra::rational::rational::Rational;
use un_algebra::ring::ring::Ring;
use un_algebra::semigroup::add_semigroup::AddSemigroup;
use un_algebra::semigroup::mul_semigroup::MulSemigroup;

fn q(numer: i64, denom: i64) -> Rational {
    match Rational::new(numer, denom) {
        Some(r) => r,
        None => panic!("zero denominator"),
    }
}

fn ratio(numer: i64, denom: i64) -> BigRational {
    BigRational::new(BigInt::from(numer), BigInt::from(denom))
}

fn samples() -> Vec<Rational> {
    vec![q(0, 1), q(1, 1), q(-1, 1), q(1, 2), q(-3, 4), q(22, 7), q(-355, 113), q(i64::MAX, 3), q(5, i64::MIN)]
}

#[test]
fn new_rejects_a_zero_denominator() {
    assert!(Rational::new(1, 0).is_none());
    assert!(Rational::new(0, 0).is_none());
    assert!(Rational::new(0, 1).is_some());
    assert!(Rational::new(1, -1).is_some());
}

#[test]
fn new_reduces_to_lowest_terms() {
    assert_eq!(*q(2, 4).as_ratio(), ratio(1, 2));
    assert_eq!(*q(3, -6).as_ratio().numer(), BigInt::from(-1));
    assert_eq!(*q(3, -6).as_ratio().denom(), BigInt::from(2));
}

#[test]
fn from_integer_is_over_one() {
    let r = Rational::from_integer(-7);
    assert_eq!(*r.as_ratio().numer(), BigInt::from(-7));
    assert_eq!(*r.as_ratio().denom(), BigInt::from(1));
}

#[test]
fn from_ratio_rejects_a_zero_denominator() {
    let bad = BigRational::new_raw(BigInt::from(1), BigInt::from(0));
    assert!(Rational::from_ratio(&bad).is_none());
}

#[test]
fn from_ratio_keeps_the_number() {
    let raw = BigRational::new_raw(BigInt::from(6), BigInt::from(-4));
    match Rational::from_ratio(&raw) {
        Some(r) => {
            assert!(r == q(-3, 2));
            assert_eq!(*r.as_ratio().denom(), BigInt::from(2));
        }
        None => panic!("denominator is not zero"),
    }
}

#[test]
fn clone_gives_the_same_number() {
    let x = q(-355, 113);
    let y = x.clone();
    assert!(y == x);
    assert_eq!(*y.as_ratio(), ratio(-355, 113));
}

#[test]
fn equality_is_of_numbers_not_of_terms() {
    assert!(q(1, 2) == q(2, 4));
    assert!(q(1, -2) == q(-1, 2));
    assert!(q(0, 5) == q(0, -3));
    assert!(q(1, 2) != q(1, 3));
    assert!(q(1, 2) != q(-1, 2));
}

#[test]
fn addition_of_rationals() {
    assert!(q(1, 2).add(&q(1, 3)) == q(5, 6));
    assert!(q(1, 2).add(&q(1, 2)) == q(1, 1));
    assert!(q(1, 2).add(&q(-1, 2)) == q(0, 1));
    assert_eq!(*q(1, 6).add(&q(1, 3)).as_ratio(), ratio(1, 2));
}

#[test]
fn multiplication_of_rationals() {
    assert!(q(2, 3).mul(&q(3, 4)) == q(1, 2));
    assert!(q(-2, 3).mul(&q(3, 2)) == q(-1, 1));
    assert!(q(5, 7).mul(&q(0, 1)) == q(0, 1));
    assert_eq!(*q(2, 3).mul(&q(3, 4)).as_ratio(), ratio(1, 2));
}

#[test]
fn negation_of_rationals() {
    assert!(q(1, 2).negate() == q(-1, 2));
    assert!(q(-3, 4).negate() == q(3, 4));
    assert!(q(0, 1).negate() == q(0, 1));
    assert!(q(1, 2).sub(&q(1, 3)) == q(1, 6));
}

#[test]
fn zero_and_one_of_the_rationals() {
    assert!(<Rational as AddMonoid>::zero() == q(0, 1));
    assert!(<Rational as MulMonoid>::one() == q(1, 1));
    assert!(q(0, 7).is_zero());
    assert!(!q(1, 7).is_zero());
    assert!(q(7, 7).is_one());
    assert!(!q(7, 8).is_one());
}

#[test]
fn invert_exchanges_numerator_and_denominator() {
    assert!(Field::invert(&q(3, 4)) == q(4, 3));
    assert_eq!(*Field::invert(&q(3, 4)).as_ratio(), ratio(4, 3));
    assert_eq!(*MulGroup::invert(&q(22, 7)).as_ratio(), ratio(7, 22));
}

#[test]
fn invert_keeps_the_sign_in_the_numerator() {
    let r = Field::invert(&q(-3, 4));
    assert_eq!(*r.as_ratio().numer(), BigInt::from(-4));
    assert_eq!(*r.as_ratio().denom(), BigInt::from(3));
}

#[test]
fn zero_is_not_invertible() {
    assert_eq!(Field::is_invertible(&q(0, 1)), false);
    assert_eq!(MulGroup::is_invertible(&q(0, 1)), false);
    assert_eq!(Field::is_invertible(&q(0, -9)), false);
    assert_eq!(Field::is_invertible(&q(1, 9)), true);
    assert_eq!(MulGroup::is_invertible(&q(-1, 9)), true);
}

#[test]
fn division_of_rationals() {
    assert!(Field::div(&q(1, 2), &q(3, 4)) == q(2, 3));
    assert!(MulGroup::div(&q(1, 2), &q(-1, 2)) == q(-1, 1));
}

#[test]
fn numerators_and_denominators_are_unbounded() {
    let big = q(i64::MAX, 1);
    let squared = big.mul(&big);
    let expected = BigInt::from(i64::MAX) * BigInt::from(i64::MAX);
    assert_eq!(*squared.as_ratio().numer(), expected);
    let inverse = Field::invert(&squared);
    assert_eq!(*inverse.as_ratio().denom(), expected);
    assert!(inverse.mul(&squared) == q(1, 1));
    assert!(squared.add(&squared.negate()) == q(0, 1));
}

#[test]
fn rationals_satisfy_the_field_axioms() {
    let xs = samples();
    assert!(<Rational as Ring>::axiom_identities());
    for x in xs.iter() {
        assert!(<Rational as AddMonoid>::axiom_left_add_identity(x));
        assert!(x.axiom_right_add_identity());
        assert!(x.axiom_left_mul_identity());
        assert!(x.axiom_right_mul_identity());
        assert!(x.axiom_left_negate());
        assert!(x.axiom_right_negate());
        assert!(x.negate().negate() == *x);
        if Field::is_invertible(x) {
            assert!(Field::axiom_left_invert(x));
            assert!(Field::axiom_right_invert(x));
            assert!(MulGroup::axiom_left_invert(x));
            assert!(MulGroup::axiom_right_invert(x));
        }
        for y in xs.iter() {
            assert!(<Rational as AddMagma>::axiom_add_closure((x, y)));
            assert!(<Rational as MulMagma>::axiom_mul_closure((x, y)));
            assert!(<Rational as AddComGroup>::axiom_add_commutivity((x, y)));
            assert!(<Rational as MulComGroup>::axiom_mul_commutivity((x, y)));
            assert!(<Rational as ComRing>::axiom_mul_commutivity((x, y)));
            for z in xs.iter() {
                assert!(<Rational as AddSemigroup>::axiom_add_associativity((x, y, z)));
                assert!(<Rational as MulSemigroup>::axiom_mul_associativity((x, y, z)));
                assert!(<Rational as Ring>::axiom_left_distributivity((x, y, z)));
                assert!(<Rational as Ring>::axiom_right_distributivity((x, y, z)));
            }
        }
    }
}

#[test]
fn rationals_have_the_derived_properties() {
    let xs = samples();
    for x in xs.iter() {
        assert!(x.prop_left_zero_absorb());
        assert!(x.prop_right_zero_absorb());
        assert!(x.prop_left_one_negate());
        assert!(x.prop_right_one_negate());
        assert!(x.prop_right_ones_negate());
        for y in xs.iter() {
            assert!(<Rational as Ring>::prop_right_mul_negate((x, y)));
            assert!(<Rational as Ring>::prop_left_mul_negate((x, y)));
            assert!(<Rational as Ring>::prop_mul_negate((x, y)));
            assert!(<Rational as Field>::prop_mul_zero((x, y)));
            for z in xs.iter() {
                assert!(<Rational as Field>::prop_add_cancel((x, y, z)));
                assert!(<Rational as Field>::prop_mul_cancel((x, y, z)));
            }
        }
    }
}

#[test]
fn checked_inversion_of_rationals() {
    match Field::checked_invert(&q(3, 4)) {
        Ok(r) => assert!(r == q(4, 3)),
        Err(NotInvertible) => panic!("3/4 is invertible"),
    }
    assert!(Field::checked_invert(&q(0, 1)).is_err());
    assert!(MulGroup::checked_invert(&q(0, 5)).is_err());
    match MulGroup::checked_div(&q(1, 2), &q(3, 4)) {
        Ok(r) => assert!(r == q(2, 3)),
        Err(NotInvertible) => panic!("3/4 is invertible"),
    }
    assert!(Field::checked_div(&q(1, 2), &q(0, 1)).is_err());
}
