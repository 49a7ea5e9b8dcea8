use float_cmp::ApproxEq;
use un_algebra::com_group::add_com_group::NumAddComGroup;
use un_algebra::com_group::mul_com_group::NumMulComGroup;
use un_algebra::com_ring::com_ring::NumComRing;
use un_algebra::complex::cayley_dickson_process::BiFunctor;
use un_algebra::complex::cayley_dickson_process::CayleyDicksonAlgebra;
use un_algebra::complex::cayley_dickson_process::CayleyDicksonPair;
use un_algebra::complex::cayley_dickson_process::Functor;
use un_algebra::complex::cayley_dickson_process::LinearMaps;
use un_algebra::complex::complex::Real;
use un_algebra::field::field::NumField;
use un_algebra::group::add_group::NumAddGroup;
use un_algebra::group::mul_group::NotInvertible;
use un_algebra::group::mul_group::NumMulGroup;
use un_algebra::magma::add_magma::NumAddMagma;
use un_algebra::magma::mul_magma::NumMulMagma;
use un_algebra::monoid::add_monoid::NumAddMonoid;
use un_algebra::monoid::mul_monoid::NumMulMonoid;
use un_algebra::numeric::equal::NumEq;
use un_algebra::ring::ring::NumRing;
use un_algebra::semigroup::add_semigroup::NumAddSemigroup;
use un_algebra::semigroup::mul_semigroup::NumMulSemigroup;

/// A double precision scalar, compared within an epsilon and 4 ULPs.
///
/// The `_spec` functions of the traits are ghost: nothing runs them, so
/// a type outside verified code gives them a body that is never reached.
#[derive(Clone, Copy, Debug, PartialEq)]
struct R64(f64);

impl NumEq for R64 {
    type Error = f64;

    fn num_eq_spec(&self, _other: &Self, _eps: &f64) -> bool {
        unreachable!()
    }

    fn num_eq(&self, other: &Self, eps: &f64) -> bool {
        !self.0.is_nan() && !other.0.is_nan() && self.0.approx_eq(&other.0, *eps, 4)
    }
}

impl NumAddMagma for R64 {
    fn add_spec(&self, _other: &Self) -> Self {
        unreachable!()
    }

    fn add(&self, other: &Self) -> Self {
        R64(self.0 + other.0)
    }
}

impl NumAddSemigroup for R64 {}

impl NumAddMonoid for R64 {
    fn zero_spec() -> Self {
        unreachable!()
    }

    fn zero() -> Self {
        R64(0.0)
    }
}

impl NumAddGroup for R64 {
    fn negate_spec(&self) -> Self {
        unreachable!()
    }

    fn negate(&self) -> Self {
        R64(-self.0)
    }
}

impl NumAddComGroup for R64 {}

impl NumMulMagma for R64 {
    fn mul_spec(&self, _other: &Self) -> Self {
        unreachable!()
    }

    fn mul(&self, other: &Self) -> Self {
        R64(self.0 * other.0)
    }
}

impl NumMulSemigroup for R64 {}

impl NumMulMonoid for R64 {
    fn one_spec() -> Self {
        unreachable!()
    }

    fn one() -> Self {
        R64(1.0)
    }
}

impl NumRing for R64 {}

impl NumComRing for R64 {}

impl NumField for R64 {
    fn is_invertible_spec(&self) -> bool {
        unreachable!()
    }

    fn invert_spec(&self) -> Self {
        unreachable!()
    }

    fn invert(&self) -> Self {
        R64(self.0.recip())
    }

    fn is_invertible(&self) -> bool {
        self.0 != 0.0
    }
}

impl NumMulGroup for R64 {
    fn is_invertible_spec(&self) -> bool {
        unreachable!()
    }

    fn invert_spec(&self) -> Self {
        unreachable!()
    }

    fn invert(&self) -> Self {
        R64(1.0 / self.0)
    }

    fn is_invertible(&self) -> bool {
        self.0 != 0.0
    }
}

impl NumMulComGroup for R64 {}

impl Real for R64 {}

type Complex = CayleyDicksonPair<R64>;

type Quaternion = CayleyDicksonPair<Complex>;

const EPS: f64 = 1e-14;

fn c(re: f64, im: f64) -> Complex {
    Complex::new((R64(re), R64(im)))
}

fn h(a: f64, b: f64, c_: f64, d: f64) -> Quaternion {
    Quaternion::new((c(a, b), c(c_, d)))
}

const SAMPLES: [f64; 8] = [0.0, 1.0, -1.0, 0.1, -2.5, 3.141592653589793, 1.0e6, -1.0e-6];

#[test]
fn num_eq_accepts_a_difference_within_epsilon() {
    assert!(R64(1.0).num_eq(&R64(1.0 + 1e-15), &EPS));
    assert!(R64(0.0).num_eq(&R64(1e-15), &EPS));
    assert!(R64(0.1 + 0.2).num_eq(&R64(0.3), &EPS));
}

#[test]
fn num_eq_accepts_a_difference_within_four_ulps() {
    let x = 1.0e6f64;
    let y = f64::from_bits(x.to_bits() + 4);
    let z = f64::from_bits(x.to_bits() + 5);
    assert!(R64(x).num_eq(&R64(y), &0.0));
    assert!(!R64(x).num_eq(&R64(z), &0.0));
}

#[test]
fn num_eq_rejects_a_larger_difference() {
    assert!(!R64(1.0).num_eq(&R64(1.001), &EPS));
    assert!(!R64(0.0).num_eq(&R64(1e-10), &EPS));
    assert!(R64(0.0).num_eq(&R64(1e-10), &1e-9));
}

#[test]
fn num_ne_is_the_negation_of_num_eq() {
    assert!(!R64(1.0).num_ne(&R64(1.0 + 1e-15), &EPS));
    assert!(R64(1.0).num_ne(&R64(1.001), &EPS));
}

#[test]
fn nan_is_numerically_equal_to_nothing() {
    let nan = R64(f64::NAN);
    assert!(!nan.num_eq(&nan, &EPS));
    assert!(!nan.num_eq(&R64(0.0), &EPS));
    assert!(!R64(0.0).num_eq(&nan, &EPS));
    assert!(nan.num_ne(&nan, &EPS));
}

#[test]
fn infinities_compare_without_failing() {
    let inf = R64(f64::INFINITY);
    assert!(inf.num_eq(&inf, &EPS));
    assert!(!inf.num_eq(&R64(f64::NEG_INFINITY), &EPS));
    assert!(!inf.num_eq(&R64(1.0), &EPS));
}

#[test]
fn the_provided_default_comparison_is_exact() {
    assert!(R64(1.0).default_eq(&R64(1.0)));
    assert!(!R64(1.0).default_eq(&R64(1.0 + 1e-15)));
    assert!(R64(1.0).default_ne(&R64(1.0 + 1e-15)));
    assert!(!R64(1.0).default_ne(&R64(1.0)));
}

#[test]
fn double_precision_add_identity_holds_within_epsilon() {
    for x in SAMPLES.iter() {
        assert!(R64(*x).axiom_left_add_identity(&EPS));
        assert!(R64(*x).axiom_right_add_identity(&EPS));
        assert!(R64(*x).axiom_left_mul_identity(&EPS));
        assert!(R64(*x).axiom_right_mul_identity(&EPS));
    }
}

#[test]
fn double_precision_closure_axioms_hold() {
    assert!(<R64 as NumAddMagma>::axiom_add_closure((&R64(1.0), &R64(f64::MAX), &EPS)));
    assert!(<R64 as NumMulMagma>::axiom_mul_closure((&R64(f64::MAX), &R64(f64::MAX), &EPS)));
}

#[test]
fn double_precision_addition_associates_within_epsilon() {
    let (x, y, z) = (R64(0.1), R64(0.2), R64(0.3));
    assert!(x.add(&y.add(&z)) != x.add(&y).add(&z));
    assert!(<R64 as NumAddSemigroup>::axiom_add_associativity((&x, &y, &z, &EPS)));
    assert!(<R64 as NumMulSemigroup>::axiom_mul_associativity((&x, &y, &z, &EPS)));
}

#[test]
fn double_precision_addition_does_not_associate_across_magnitudes() {
    let (x, y, z) = (R64(1.0e16), R64(-1.0e16), R64(1.0));
    assert!(!<R64 as NumAddSemigroup>::axiom_add_associativity((&x, &y, &z, &EPS)));
}

#[test]
fn double_precision_group_axioms() {
    for x in SAMPLES.iter() {
        let x = R64(*x);
        assert!(x.axiom_left_negate(&EPS));
        assert!(x.axiom_right_negate(&EPS));
        assert!(x.negate().negate() == x);
        if NumField::is_invertible(&x) {
            assert!(NumField::axiom_left_invert(&x, &EPS));
            assert!(NumField::axiom_right_invert(&x, &EPS));
            assert!(NumMulGroup::axiom_left_invert(&x, &EPS));
            assert!(NumMulGroup::axiom_right_invert(&x, &EPS));
        }
    }
    assert!(!NumField::is_invertible(&R64(0.0)));
    assert!(!NumMulGroup::is_invertible(&R64(0.0)));
    assert!(R64(7.0).sub(&R64(9.0)) == R64(-2.0));
    assert!(NumField::div(&R64(1.0), &R64(4.0)) == R64(0.25));
    assert!(NumMulGroup::div(&R64(1.0), &R64(4.0)) == R64(0.25));
}

#[test]
fn double_precision_checked_inversion() {
    assert_eq!(NumField::checked_invert(&R64(4.0)), Ok(R64(0.25)));
    assert_eq!(NumField::checked_invert(&R64(0.0)), Err(NotInvertible));
    assert_eq!(NumMulGroup::checked_div(&R64(1.0), &R64(-2.0)), Ok(R64(-0.5)));
    assert_eq!(NumMulGroup::checked_div(&R64(1.0), &R64(0.0)), Err(NotInvertible));
}

#[test]
fn double_precision_ring_axioms() {
    assert!(<R64 as NumRing>::axiom_identities());
    for x in SAMPLES.iter() {
        let x = R64(*x);
        assert!(x.prop_left_zero_absorb(&EPS));
        assert!(x.prop_right_zero_absorb(&EPS));
        assert!(x.prop_left_one_negate(&EPS));
        assert!(x.prop_right_one_negate(&EPS));
        assert!(x.prop_right_ones_negate(&EPS));
        for y in SAMPLES.iter() {
            let y = R64(*y);
            assert!(<R64 as NumAddComGroup>::axiom_add_commutivity((&x, &y, &EPS)));
            assert!(<R64 as NumMulComGroup>::axiom_mul_commutivity((&x, &y, &EPS)));
            assert!(<R64 as NumComRing>::axiom_mul_commutivity((&x, &y, &EPS)));
            assert!(<R64 as NumRing>::prop_right_mul_negate((&x, &y, &EPS)));
            assert!(<R64 as NumRing>::prop_left_mul_negate((&x, &y, &EPS)));
            assert!(<R64 as NumRing>::prop_mul_negate((&x, &y, &EPS)));
            assert!(<R64 as NumField>::prop_mul_zero((&x, &y, &EPS)));
        }
    }
    let (x, y, z) = (R64(0.5), R64(0.25), R64(-3.0));
    assert!(<R64 as NumRing>::axiom_left_distributivity((&x, &y, &z, &EPS)));
    assert!(<R64 as NumRing>::axiom_right_distributivity((&x, &y, &z, &EPS)));
    assert!(<R64 as NumField>::prop_add_cancel((&x, &y, &z, &EPS)));
    assert!(<R64 as NumField>::prop_mul_cancel((&x, &y, &z, &EPS)));
    assert!(<R64 as NumField>::prop_add_cancel((&x, &y, &x, &EPS)));
    assert!(<R64 as NumField>::prop_mul_cancel((&x, &y, &x, &EPS)));
}

#[test]
fn a_real_scalar_is_its_own_conjugate() {
    assert!(R64(2.5).conjugate() == R64(2.5));
    assert!(LinearMaps::hermitator(&R64(2.5)) == R64(0.0));
    assert!(LinearMaps::commutator(&R64(2.5), &R64(-3.0)) == R64(0.0));
    assert!(LinearMaps::associator(&R64(2.0), &R64(3.0), &R64(4.0)) == R64(0.0));
}

#[test]
fn new_holds_the_two_halves() {
    let z = c(1.0, 2.0);
    assert!(z.pair.0 == R64(1.0));
    assert!(z.pair.1 == R64(2.0));
}

#[test]
fn pairs_add_half_by_half() {
    assert!(c(1.0, 2.0).add(&c(3.0, -5.0)) == c(4.0, -3.0));
    assert!(h(1.0, 2.0, 3.0, 4.0).add(&h(4.0, 3.0, 2.0, 1.0)) == h(5.0, 5.0, 5.0, 5.0));
}

#[test]
fn pairs_negate_half_by_half() {
    assert!(c(1.0, -2.0).negate() == c(-1.0, 2.0));
    assert!(c(1.0, -2.0).sub(&c(1.0, -2.0)) == c(0.0, 0.0));
}

#[test]
fn pairs_multiply_by_the_doubling_formula() {
    // (1 + 2i)(3 + 4i) = -5 + 10i
    assert!(c(1.0, 2.0).mul(&c(3.0, 4.0)) == c(-5.0, 10.0));
    // i * i = -1
    assert!(c(0.0, 1.0).mul(&c(0.0, 1.0)) == c(-1.0, 0.0));
}

#[test]
fn quaternion_units_multiply_as_they_should() {
    let i = h(0.0, 1.0, 0.0, 0.0);
    let j = h(0.0, 0.0, 1.0, 0.0);
    let k = h(0.0, 0.0, 0.0, 1.0);
    let minus_one = h(-1.0, 0.0, 0.0, 0.0);
    assert!(i.mul(&i) == minus_one);
    assert!(j.mul(&j) == minus_one);
    assert!(k.mul(&k) == minus_one);
    assert!(i.mul(&j) == k);
    assert!(j.mul(&i) == k.negate());
    assert!(j.mul(&k) == i);
    assert!(k.mul(&i) == j);
}

#[test]
fn zero_and_one_of_the_pairs() {
    assert!(Complex::zero() == c(0.0, 0.0));
    assert!(Complex::one() == c(1.0, 0.0));
    assert!(Quaternion::one() == h(1.0, 0.0, 0.0, 0.0));
    assert!(c(0.0, 0.0).is_zero());
    assert!(!c(0.0, 1.0).is_zero());
    assert!(c(1.0, 0.0).is_one());
    assert!(c(3.0, 4.0).mul(&Complex::one()) == c(3.0, 4.0));
    assert!(Complex::one().mul(&c(3.0, 4.0)) == c(3.0, 4.0));
}

#[test]
fn conjugate_negates_the_second_half() {
    assert!(c(1.0, 2.0).conjugate() == c(1.0, -2.0));
    assert!(h(1.0, 2.0, 3.0, 4.0).conjugate() == h(1.0, -2.0, -3.0, -4.0));
    assert!(c(3.0, 4.0).mul(&c(3.0, 4.0).conjugate()) == c(25.0, 0.0));
}

#[test]
fn pairs_are_equal_half_by_half() {
    assert!(c(1.0, 2.0) == c(1.0, 2.0));
    assert!(c(1.0, 2.0) != c(1.0, 2.5));
    assert!(c(1.0, 2.0) != c(1.5, 2.0));
    assert!(c(1.0, 2.0).num_eq(&c(1.0 + 1e-15, 2.0 - 1e-15), &EPS));
    assert!(!c(1.0, 2.0).num_eq(&c(1.0, 2.001), &EPS));
    assert!(!c(1.0, 2.0).num_eq(&c(1.001, 2.0), &EPS));
    assert!(c(1.0, 2.0).num_ne(&c(1.001, 2.0), &EPS));
}

#[test]
fn clone_copies_both_halves() {
    let z = h(1.0, 2.0, 3.0, 4.0);
    assert!(z.clone() == z);
}

#[test]
fn fmap_maps_each_half() {
    let z = c(1.0, -2.0);
    let doubled = Functor::fmap(&z, |x: &R64| R64(x.0 * 2.0));
    assert!(doubled == c(2.0, -4.0));
    let larger = BiFunctor::fmap(&z, &c(0.0, 5.0), |x: &R64, y: &R64| R64(x.0.max(y.0)));
    assert!(larger == c(1.0, 5.0));
}

#[test]
fn complex_numbers_commute_and_quaternions_do_not() {
    assert!(LinearMaps::commutator(&c(1.0, 2.0), &c(3.0, 4.0)) == c(0.0, 0.0));
    let i = h(0.0, 1.0, 0.0, 0.0);
    let j = h(0.0, 0.0, 1.0, 0.0);
    assert!(LinearMaps::commutator(&i, &j) == h(0.0, 0.0, 0.0, 2.0));
}

#[test]
fn hermitator_doubles_the_imaginary_part() {
    assert!(LinearMaps::hermitator(&c(3.0, 4.0)) == c(0.0, 8.0));
}

#[test]
fn pair_axioms_hold_within_epsilon() {
    let (x, y, z) = (c(0.1, 0.2), c(-0.3, 1.5), c(2.0, -0.7));
    assert!(<Complex as NumAddMagma>::axiom_add_closure((&x, &y, &EPS)));
    assert!(<Complex as NumMulMagma>::axiom_mul_closure((&x, &y, &EPS)));
    assert!(<Complex as NumAddSemigroup>::axiom_add_associativity((&x, &y, &z, &EPS)));
    assert!(<Complex as NumMulSemigroup>::axiom_mul_associativity((&x, &y, &z, &EPS)));
    assert!(x.axiom_left_add_identity(&EPS));
    assert!(x.axiom_right_add_identity(&EPS));
    assert!(x.axiom_left_mul_identity(&EPS));
    assert!(x.axiom_right_mul_identity(&EPS));
    assert!(x.axiom_left_negate(&EPS));
    assert!(x.axiom_right_negate(&EPS));
    assert!(<Complex as NumAddComGroup>::axiom_add_commutivity((&x, &y, &EPS)));
    assert!(<Complex as NumRing>::axiom_identities());
    assert!(<Complex as NumRing>::axiom_left_distributivity((&x, &y, &z, &EPS)));
    assert!(<Complex as NumRing>::axiom_right_distributivity((&x, &y, &z, &EPS)));
    assert!(x.prop_left_zero_absorb(&EPS));
    assert!(x.prop_right_zero_absorb(&EPS));
    assert!(<Complex as NumRing>::prop_right_mul_negate((&x, &y, &EPS)));
    assert!(<Complex as NumRing>::prop_left_mul_negate((&x, &y, &EPS)));
    assert!(<Complex as NumRing>::prop_mul_negate((&x, &y, &EPS)));
    assert!(x.prop_left_one_negate(&EPS));
    assert!(x.prop_right_one_negate(&EPS));
    assert!(x.prop_right_ones_negate(&EPS));
}

#[test]
fn test() {
    let q = Quaternion::new((
        Complex::new((R64(2.6), R64(-5.7))),
        Complex::new((R64(8.3), R64(7.2))),
    ));
    let w = q.mul(&q);
    let e = w.mul(&q);

    let a = LinearMaps::associator(&q, &w, &e);
    println!("{:?}", a);
    assert_eq!(a.num_eq(&Quaternion::zero(), &1e-8), true);
    assert_eq!(LinearMaps::hermitator(&q.mul(&q.conjugate())).num_eq(&Quaternion::zero(), &1e-8), true);
    assert_eq!(LinearMaps::hermitator(&w.mul(&w.conjugate())).num_eq(&Quaternion::zero(), &1e-8), true);
    assert_eq!(LinearMaps::hermitator(&e.mul(&e.conjugate())).num_eq(&Quaternion::zero(), &1e-8), true);
}
