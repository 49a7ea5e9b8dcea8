use un_algebra::com_group::add_com_group::AddComGroup;
use un_algebra::com_ring::com_ring::ComRing;
use un_algebra::group::add_group::AddGroup;
use un_algebra::magma::add_magma::AddMagma;
use un_algebra::magma::mul_magma::MulMagma;
use un_algebra::monoid::add_monoid::AddMonoid;
use un_algebra::monoid::mul_monoid::MulMonoid;
use un_algebra::ring::ring::Ring;
use un_algebra::semigroup::add_semigroup::AddSemigroup;
use un_algebra::semigroup::mul_semigroup::MulSemigroup;

const I32_SAMPLES: [i32; 9] = [i32::MIN, i32::MIN + 1, -65_537, -1, 0, 1, 46_341, i32::MAX - 1, i32::MAX];

const U8_SAMPLES: [u8; 7] = [0, 1, 2, 15, 16, 254, 255];

#[test]
fn add_wraps_at_the_upper_bound() {
    assert_eq!(i32::MAX.add(&1), i32::MIN);
    assert_eq!(255u8.add(&1), 0u8);
    assert_eq!(u64::MAX.add(&2), 1u64);
    assert_eq!(i128::MAX.add(&1), i128::MIN);
    assert_eq!(usize::MAX.add(&1), 0usize);
}

#[test]
fn add_wraps_at_the_lower_bound() {
    assert_eq!(i32::MIN.add(&-1), i32::MAX);
    assert_eq!(i8::MIN.add(&i8::MIN), 0i8);
    assert_eq!(isize::MIN.add(&-1), isize::MAX);
}

#[test]
fn add_without_wrapping_is_the_sum() {
    assert_eq!(2i32.add(&3), 5);
    assert_eq!(200u8.add(&55), 255u8);
    assert_eq!((-7i64).add(&7), 0);
}

#[test]
fn mul_wraps_around() {
    assert_eq!(i32::MAX.mul(&2), -2);
    assert_eq!(16u8.mul(&16), 0u8);
    assert_eq!(255u8.mul(&255), 1u8);
    assert_eq!(i8::MIN.mul(&-1), i8::MIN);
    assert_eq!(65_536i32.mul(&65_536), 0);
    assert_eq!(u128::MAX.mul(&u128::MAX), 1u128);
}

#[test]
fn mul_without_wrapping_is_the_product() {
    assert_eq!(6i32.mul(&-7), -42);
    assert_eq!(15u8.mul(&17), 255u8);
}

#[test]
fn closure_axioms_hold() {
    assert!(<i32 as AddMagma>::axiom_add_closure((&i32::MAX, &1)));
    assert!(<u16 as AddMagma>::axiom_add_closure((&7, &9)));
    assert!(<i64 as MulMagma>::axiom_mul_closure((&i64::MIN, &-1)));
    assert!(<u8 as MulMagma>::axiom_mul_closure((&255, &255)));
}

#[test]
fn associativity_holds_when_addition_wraps() {
    let (a, b) = (i32::MAX, 1);
    let c = a.add(&b);
    assert_eq!(c, i32::MIN);
    assert!(<i32 as AddSemigroup>::axiom_add_associativity((&a, &b, &c)));
}

#[test]
fn add_associativity_over_samples() {
    for x in I32_SAMPLES.iter() {
        for y in I32_SAMPLES.iter() {
            for z in I32_SAMPLES.iter() {
                assert!(<i32 as AddSemigroup>::axiom_add_associativity((x, y, z)));
            }
        }
    }
    for x in U8_SAMPLES.iter() {
        for y in U8_SAMPLES.iter() {
            for z in U8_SAMPLES.iter() {
                assert!(<u8 as AddSemigroup>::axiom_add_associativity((x, y, z)));
            }
        }
    }
}

#[test]
fn mul_associativity_over_samples() {
    for x in I32_SAMPLES.iter() {
        for y in I32_SAMPLES.iter() {
            for z in I32_SAMPLES.iter() {
                assert!(<i32 as MulSemigroup>::axiom_mul_associativity((x, y, z)));
            }
        }
    }
    for x in U8_SAMPLES.iter() {
        for y in U8_SAMPLES.iter() {
            for z in U8_SAMPLES.iter() {
                assert!(<u8 as MulSemigroup>::axiom_mul_associativity((x, y, z)));
            }
        }
    }
}

#[test]
fn zero_and_one_of_the_integers() {
    assert_eq!(<i32 as AddMonoid>::zero(), 0);
    assert_eq!(<u64 as AddMonoid>::zero(), 0);
    assert_eq!(<i32 as MulMonoid>::one(), 1);
    assert_eq!(<u8 as MulMonoid>::one(), 1);
    assert!(0i32.is_zero());
    assert!(!1i32.is_zero());
    assert!(1u8.is_one());
    assert!(!0u8.is_one());
}

#[test]
fn identity_axioms_over_samples() {
    for x in I32_SAMPLES.iter() {
        assert!(<i32 as AddMonoid>::axiom_left_add_identity(x));
        assert!(x.axiom_right_add_identity());
        assert!(x.axiom_left_mul_identity());
        assert!(x.axiom_right_mul_identity());
    }
    for x in U8_SAMPLES.iter() {
        assert!(<u8 as AddMonoid>::axiom_left_add_identity(x));
        assert!(x.axiom_right_add_identity());
        assert!(x.axiom_left_mul_identity());
        assert!(x.axiom_right_mul_identity());
    }
}

#[test]
fn negate_wraps_at_the_least_value() {
    assert_eq!(i32::MIN.negate(), i32::MIN);
    assert_eq!(i8::MIN.negate(), i8::MIN);
    assert_eq!(5i32.negate(), -5);
    assert_eq!((-5i64).negate(), 5);
    assert_eq!(0i16.negate(), 0);
    assert_eq!(i128::MAX.negate(), i128::MIN + 1);
}

#[test]
fn sub_adds_the_negation() {
    assert_eq!(7i32.sub(&9), -2);
    assert_eq!(i32::MIN.sub(&1), i32::MAX);
    assert_eq!(0i32.sub(&i32::MIN), i32::MIN);
}

#[test]
fn negation_axioms_over_samples() {
    for x in I32_SAMPLES.iter() {
        assert!(x.axiom_left_negate());
        assert!(x.axiom_right_negate());
    }
}

#[test]
fn negating_twice_gives_the_value_back() {
    for x in I32_SAMPLES.iter() {
        assert_eq!(x.negate().negate(), *x);
    }
}

#[test]
fn commutativity_over_samples() {
    for x in I32_SAMPLES.iter() {
        for y in I32_SAMPLES.iter() {
            assert!(<i32 as AddComGroup>::axiom_add_commutivity((x, y)));
            assert!(<i32 as ComRing>::axiom_mul_commutivity((x, y)));
        }
    }
}

#[test]
fn distributivity_over_samples() {
    for x in I32_SAMPLES.iter() {
        for y in I32_SAMPLES.iter() {
            for z in I32_SAMPLES.iter() {
                assert!(<i32 as Ring>::axiom_left_distributivity((x, y, z)));
                assert!(<i32 as Ring>::axiom_right_distributivity((x, y, z)));
            }
        }
    }
}

#[test]
fn distributivity_when_both_operations_wrap() {
    let (x, y, z) = (46_341i32, i32::MAX, i32::MAX);
    assert_eq!(y.add(&z), -2);
    assert_eq!(x.mul(&y.add(&z)), -92_682);
    assert_eq!(x.mul(&y).add(&x.mul(&z)), -92_682);
    assert!(<i32 as Ring>::axiom_left_distributivity((&x, &y, &z)));
}

#[test]
fn ring_identities_differ() {
    assert!(<i32 as Ring>::axiom_identities());
    assert!(<i8 as Ring>::axiom_identities());
    assert!(<isize as Ring>::axiom_identities());
}

#[test]
fn ring_properties_over_samples() {
    for x in I32_SAMPLES.iter() {
        assert!(x.prop_left_zero_absorb());
        assert!(x.prop_right_zero_absorb());
        assert!(x.prop_left_one_negate());
        assert!(x.prop_right_one_negate());
        assert!(x.prop_right_ones_negate());
        for y in I32_SAMPLES.iter() {
            assert!(<i32 as Ring>::prop_right_mul_negate((x, y)));
            assert!(<i32 as Ring>::prop_left_mul_negate((x, y)));
            assert!(<i32 as Ring>::prop_mul_negate((x, y)));
        }
    }
}

#[test]
fn every_width_is_a_ring() {
    assert!(<i8 as Ring>::axiom_left_distributivity((&i8::MIN, &i8::MAX, &-1)));
    assert!(<i16 as Ring>::axiom_left_distributivity((&i16::MIN, &i16::MAX, &-1)));
    assert!(<i64 as Ring>::axiom_left_distributivity((&i64::MIN, &i64::MAX, &-1)));
    assert!(<i128 as Ring>::axiom_left_distributivity((&i128::MIN, &i128::MAX, &-1)));
    assert!(<isize as Ring>::axiom_left_distributivity((&isize::MIN, &isize::MAX, &-1)));
    assert!(<u16 as MulSemigroup>::axiom_mul_associativity((&u16::MAX, &u16::MAX, &3)));
    assert!(<u32 as MulSemigroup>::axiom_mul_associativity((&u32::MAX, &u32::MAX, &3)));
    assert!(<u64 as MulSemigroup>::axiom_mul_associativity((&u64::MAX, &u64::MAX, &3)));
    assert!(<u128 as MulSemigroup>::axiom_mul_associativity((&u128::MAX, &u128::MAX, &3)));
    assert!(<usize as MulSemigroup>::axiom_mul_associativity((&usize::MAX, &usize::MAX, &3)));
}
