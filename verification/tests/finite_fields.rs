use un_algebra::com_group::add_com_group::AddComGroup;
use un_algebra::com_group::mul_com_group::MulComGroup;
use un_algebra::com_ring::com_ring::ComRing;
use un_algebra::field::field::Field;
use un_algebra::finite::binary::F2;
use un_algebra::finite::f4::F4;
use un_algebra::group::add_group::AddGroup;
use un_algebra::group::mul_group::MulGroup;
use un_algebra::group::mul_group::NotInvertible;
use un_algebra::magma::add_magma::AddMagma;
use un_algebra::magma::mul_magma::MulMagma;
use un_algebra::monoid::add_monoid::AddMonoid;
use un_algebra::monoid::mul_monoid::MulMonoid;
use un_algebra::ring::ring::Ring;
use un_algebra::semigroup::add_semigroup::AddSemigroup;
use un_algebra::semigroup::mul_semigroup::MulSemigroup;

const ALL_F2: [F2; 2] = [F2::F, F2::T];

const ALL_F4: [F4; 4] = [F4::O, F4::I, F4::A, F4::B];

#[test]
fn f2_addition_is_exclusive_or() {
    assert_eq!(F2::F.add(&F2::F), F2::F);
    assert_eq!(F2::F.add(&F2::T), F2::T);
    assert_eq!(F2::T.add(&F2::F), F2::T);
    assert_eq!(F2::T.add(&F2::T), F2::F);
}

#[test]
fn f2_multiplication_is_conjunction() {
    assert_eq!(F2::F.mul(&F2::F), F2::F);
    assert_eq!(F2::F.mul(&F2::T), F2::F);
    assert_eq!(F2::T.mul(&F2::F), F2::F);
    assert_eq!(F2::T.mul(&F2::T), F2::T);
}

#[test]
fn f2_identities_and_inverses() {
    assert_eq!(<F2 as AddMonoid>::zero(), F2::F);
    assert_eq!(<F2 as MulMonoid>::one(), F2::T);
    assert_eq!(F2::F.negate(), F2::F);
    assert_eq!(F2::T.negate(), F2::T);
    assert_eq!(Field::invert(&F2::T), F2::T);
    assert_eq!(MulGroup::invert(&F2::T), F2::T);
    assert_eq!(Field::div(&F2::T, &F2::T), F2::T);
    assert_eq!(Field::div(&F2::F, &F2::T), F2::F);
    assert_eq!(F2::T.sub(&F2::T), F2::F);
}

#[test]
fn f2_only_zero_is_not_invertible() {
    assert_eq!(Field::is_invertible(&F2::F), false);
    assert_eq!(Field::is_invertible(&F2::T), true);
    assert_eq!(MulGroup::is_invertible(&F2::F), false);
    assert_eq!(MulGroup::is_invertible(&F2::T), true);
}

#[test]
fn f2_equality() {
    assert!(F2::F == F2::F);
    assert!(F2::T == F2::T);
    assert!(F2::F != F2::T);
    assert!(F2::F.is_zero());
    assert!(!F2::T.is_zero());
    assert!(F2::T.is_one());
    assert!(!F2::F.is_one());
}

#[test]
fn f2_satisfies_the_field_axioms() {
    assert!(<F2 as Ring>::axiom_identities());
    for x in ALL_F2.iter() {
        assert!(<F2 as AddMonoid>::axiom_left_add_identity(x));
        assert!(x.axiom_right_add_identity());
        assert!(x.axiom_left_mul_identity());
        assert!(x.axiom_right_mul_identity());
        assert!(x.axiom_left_negate());
        assert!(x.axiom_right_negate());
        assert_eq!(x.negate().negate(), *x);
        if Field::is_invertible(x) {
            assert!(Field::axiom_left_invert(x));
            assert!(Field::axiom_right_invert(x));
            assert!(MulGroup::axiom_left_invert(x));
            assert!(MulGroup::axiom_right_invert(x));
        }
        for y in ALL_F2.iter() {
            assert!(<F2 as AddMagma>::axiom_add_closure((x, y)));
            assert!(<F2 as MulMagma>::axiom_mul_closure((x, y)));
            assert!(<F2 as AddComGroup>::axiom_add_commutivity((x, y)));
            assert!(<F2 as MulComGroup>::axiom_mul_commutivity((x, y)));
            assert!(<F2 as ComRing>::axiom_mul_commutivity((x, y)));
            for z in ALL_F2.iter() {
                assert!(<F2 as AddSemigroup>::axiom_add_associativity((x, y, z)));
                assert!(<F2 as MulSemigroup>::axiom_mul_associativity((x, y, z)));
                assert!(<F2 as Ring>::axiom_left_distributivity((x, y, z)));
                assert!(<F2 as Ring>::axiom_right_distributivity((x, y, z)));
            }
        }
    }
}

#[test]
fn f2_has_the_derived_properties() {
    for x in ALL_F2.iter() {
        assert!(x.prop_left_zero_absorb());
        assert!(x.prop_right_zero_absorb());
        assert!(x.prop_left_one_negate());
        assert!(x.prop_right_one_negate());
        assert!(x.prop_right_ones_negate());
        for y in ALL_F2.iter() {
            assert!(<F2 as Ring>::prop_right_mul_negate((x, y)));
            assert!(<F2 as Ring>::prop_left_mul_negate((x, y)));
            assert!(<F2 as Ring>::prop_mul_negate((x, y)));
            assert!(<F2 as Field>::prop_mul_zero((x, y)));
            for z in ALL_F2.iter() {
                assert!(<F2 as Field>::prop_add_cancel((x, y, z)));
                assert!(<F2 as Field>::prop_mul_cancel((x, y, z)));
            }
        }
    }
}

#[test]
fn f4_scenarios() {
    assert_eq!(F4::I.add(&F4::I), F4::O);
    assert_eq!(F4::A.mul(&F4::A), F4::B);
    assert_eq!(Field::invert(&F4::A), F4::B);
    assert_eq!(Field::invert(&F4::B), F4::A);
    assert_eq!(Field::invert(&F4::I), F4::I);
    assert_eq!(MulGroup::invert(&F4::A), F4::B);
    assert_eq!(MulGroup::invert(&F4::B), F4::A);
}

#[test]
fn f4_each_value_is_its_own_negation() {
    for x in ALL_F4.iter() {
        assert_eq!(x.add(x), F4::O);
        assert_eq!(x.negate(), *x);
    }
}

#[test]
fn f4_addition_table() {
    assert_eq!(F4::O.add(&F4::A), F4::A);
    assert_eq!(F4::I.add(&F4::A), F4::B);
    assert_eq!(F4::I.add(&F4::B), F4::A);
    assert_eq!(F4::A.add(&F4::B), F4::I);
    assert_eq!(F4::B.add(&F4::I), F4::A);
}

#[test]
fn f4_multiplication_table() {
    assert_eq!(F4::O.mul(&F4::B), F4::O);
    assert_eq!(F4::I.mul(&F4::B), F4::B);
    assert_eq!(F4::A.mul(&F4::B), F4::I);
    assert_eq!(F4::B.mul(&F4::A), F4::I);
    assert_eq!(F4::B.mul(&F4::B), F4::A);
}

#[test]
fn f4_only_zero_is_not_invertible() {
    assert_eq!(Field::is_invertible(&F4::O), false);
    assert_eq!(Field::is_invertible(&F4::I), true);
    assert_eq!(Field::is_invertible(&F4::A), true);
    assert_eq!(Field::is_invertible(&F4::B), true);
    assert_eq!(MulGroup::is_invertible(&F4::O), false);
    assert_eq!(MulGroup::is_invertible(&F4::B), true);
}

#[test]
fn f4_division() {
    assert_eq!(Field::div(&F4::I, &F4::A), F4::B);
    assert_eq!(Field::div(&F4::A, &F4::B), F4::B);
    assert_eq!(Field::div(&F4::B, &F4::B), F4::I);
    assert_eq!(MulGroup::div(&F4::A, &F4::A), F4::I);
}

#[test]
fn f4_satisfies_the_field_axioms() {
    assert!(<F4 as Ring>::axiom_identities());
    for x in ALL_F4.iter() {
        assert!(<F4 as AddMonoid>::axiom_left_add_identity(x));
        assert!(x.axiom_right_add_identity());
        assert!(x.axiom_left_mul_identity());
        assert!(x.axiom_right_mul_identity());
        assert!(x.axiom_left_negate());
        assert!(x.axiom_right_negate());
        if Field::is_invertible(x) {
            assert!(Field::axiom_left_invert(x));
            assert!(Field::axiom_right_invert(x));
            assert!(MulGroup::axiom_left_invert(x));
            assert!(MulGroup::axiom_right_invert(x));
        }
        for y in ALL_F4.iter() {
            assert!(<F4 as AddComGroup>::axiom_add_commutivity((x, y)));
            assert!(<F4 as MulComGroup>::axiom_mul_commutivity((x, y)));
            assert!(<F4 as ComRing>::axiom_mul_commutivity((x, y)));
            for z in ALL_F4.iter() {
                assert!(<F4 as AddSemigroup>::axiom_add_associativity((x, y, z)));
                assert!(<F4 as MulSemigroup>::axiom_mul_associativity((x, y, z)));
                assert!(<F4 as Ring>::axiom_left_distributivity((x, y, z)));
                assert!(<F4 as Ring>::axiom_right_distributivity((x, y, z)));
            }
        }
    }
}

#[test]
fn f4_has_the_derived_properties() {
    for x in ALL_F4.iter() {
        assert!(x.prop_left_zero_absorb());
        assert!(x.prop_right_zero_absorb());
        assert!(x.prop_left_one_negate());
        assert!(x.prop_right_one_negate());
        assert!(x.prop_right_ones_negate());
        for y in ALL_F4.iter() {
            assert!(<F4 as Ring>::prop_right_mul_negate((x, y)));
            assert!(<F4 as Ring>::prop_left_mul_negate((x, y)));
            assert!(<F4 as Ring>::prop_mul_negate((x, y)));
            assert!(<F4 as Field>::prop_mul_zero((x, y)));
            for z in ALL_F4.iter() {
                assert!(<F4 as Field>::prop_add_cancel((x, y, z)));
                assert!(<F4 as Field>::prop_mul_cancel((x, y, z)));
            }
        }
    }
}

#[test]
fn checked_inversion_fails_on_zero_only() {
    assert_eq!(Field::checked_invert(&F2::T), Ok(F2::T));
    assert_eq!(Field::checked_invert(&F2::F), Err(NotInvertible));
    assert_eq!(MulGroup::checked_invert(&F4::A), Ok(F4::B));
    assert_eq!(MulGroup::checked_invert(&F4::O), Err(NotInvertible));
    assert_eq!(Field::checked_invert(&F4::B), Ok(F4::A));
    assert_eq!(Field::checked_invert(&F4::O), Err(NotInvertible));
}

#[test]
fn checked_division_fails_on_a_zero_divisor_only() {
    assert_eq!(Field::checked_div(&F4::I, &F4::A), Ok(F4::B));
    assert_eq!(Field::checked_div(&F4::I, &F4::O), Err(NotInvertible));
    assert_eq!(Field::checked_div(&F4::O, &F4::A), Ok(F4::O));
    assert_eq!(MulGroup::checked_div(&F2::T, &F2::T), Ok(F2::T));
    assert_eq!(MulGroup::checked_div(&F2::T, &F2::F), Err(NotInvertible));
}
