use un_algebra::com_group::com_group::ComGroup;
use un_algebra::group::group::Group;
use un_algebra::magma::magma::Magma;
use un_algebra::monoid::monoid::Monoid;
use un_algebra::semigroup::semigroup::Semigroup;

/// The integers modulo five under addition.
///
/// The `_spec` functions of the traits are ghost: nothing runs them, so
/// a type outside verified code gives them a body that is never reached.
#[derive(Clone, Copy, Debug, PartialEq)]
struct Z5(u8);

impl Magma for Z5 {
    fn op_spec(&self, _other: &Self) -> Self {
        unreachable!()
    }

    fn op(&self, other: &Self) -> Self {
        Z5((self.0 + other.0) % 5)
    }
}

impl Semigroup for Z5 {}

impl Monoid for Z5 {
    fn id_spec() -> Self {
        unreachable!()
    }

    fn id() -> Self {
        Z5(0)
    }
}

impl Group for Z5 {
    fn inverse_spec(&self) -> Self {
        unreachable!()
    }

    fn inverse(&self) -> Self {
        Z5((5 - self.0) % 5)
    }
}

impl ComGroup for Z5 {}

/// Words over `a` and `b` under concatenation: a monoid that does not
/// commute. Its `inverse` is a wrong one on purpose, the reversed word.
#[derive(Clone, Debug, PartialEq)]
struct Word(String);

impl Magma for Word {
    fn op_spec(&self, _other: &Self) -> Self {
        unreachable!()
    }

    fn op(&self, other: &Self) -> Self {
        Word(format!("{}{}", self.0, other.0))
    }
}

impl Semigroup for Word {}

impl Monoid for Word {
    fn id_spec() -> Self {
        unreachable!()
    }

    fn id() -> Self {
        Word(String::new())
    }
}

impl Group for Word {
    fn inverse_spec(&self) -> Self {
        unreachable!()
    }

    fn inverse(&self) -> Self {
        Word(self.0.chars().rev().collect())
    }
}

impl ComGroup for Word {}

fn all_z5() -> Vec<Z5> {
    vec![Z5(0), Z5(1), Z5(2), Z5(3), Z5(4)]
}

#[test]
fn abstract_closure_holds() {
    assert!(<Z5 as Magma>::axiom_closure((&Z5(4), &Z5(4))));
    assert_eq!(Z5(4).op(&Z5(3)), Z5(2));
}

#[test]
fn abstract_associativity_holds() {
    for x in all_z5().iter() {
        for y in all_z5().iter() {
            for z in all_z5().iter() {
                assert!(<Z5 as Semigroup>::axiom_associativity((x, y, z)));
            }
        }
    }
}

#[test]
fn abstract_identity_axioms_compare_with_the_value() {
    assert_eq!(<Z5 as Monoid>::id(), Z5(0));
    for x in all_z5().iter() {
        assert!(x.axiom_left_identity());
        assert!(x.axiom_right_identity());
    }
    assert!(Z5(0).is_id());
    assert!(!Z5(3).is_id());
}

#[test]
fn abstract_inverse_axioms_hold() {
    for x in all_z5().iter() {
        assert!(x.axiom_left_inverse());
        assert!(x.axiom_right_inverse());
        assert_eq!(x.cancel(), Z5(0));
        assert_eq!(x.inverse().inverse(), *x);
    }
    assert_eq!(Z5(2).inverse(), Z5(3));
}

#[test]
fn abstract_commutativity_holds() {
    for x in all_z5().iter() {
        for y in all_z5().iter() {
            assert!(<Z5 as ComGroup>::axiom_commutivity((x, y)));
        }
    }
}

#[test]
fn axiom_predicates_report_a_violation() {
    let (a, b) = (Word(String::from("a")), Word(String::from("b")));
    assert!(<Word as Semigroup>::axiom_associativity((&a, &b, &a)));
    assert!(a.axiom_left_identity());
    assert!(a.axiom_right_identity());
    assert!(!<Word as ComGroup>::axiom_commutivity((&a, &b)));
    assert!(!a.axiom_left_inverse());
    assert!(!a.axiom_right_inverse());
    assert_eq!(a.op(&b), Word(String::from("ab")));
}

/// The ring with one element, in which zero and one are the same.
#[derive(Clone, Copy, Debug, PartialEq)]
struct Trivial;

impl un_algebra::magma::add_magma::AddMagma for Trivial {
    fn add_spec(&self, _other: &Self) -> Self {
        unreachable!()
    }

    fn add(&self, _other: &Self) -> Self {
        Trivial
    }
}

impl un_algebra::semigroup::add_semigroup::AddSemigroup for Trivial {}

impl un_algebra::monoid::add_monoid::AddMonoid for Trivial {
    fn zero_spec() -> Self {
        unreachable!()
    }

    fn zero() -> Self {
        Trivial
    }
}

impl un_algebra::group::add_group::AddGroup for Trivial {
    fn negate_spec(&self) -> Self {
        unreachable!()
    }

    fn negate(&self) -> Self {
        Trivial
    }
}

impl un_algebra::com_group::add_com_group::AddComGroup for Trivial {}

impl un_algebra::magma::mul_magma::MulMagma for Trivial {
    fn mul_spec(&self, _other: &Self) -> Self {
        unreachable!()
    }

    fn mul(&self, _other: &Self) -> Self {
        Trivial
    }
}

impl un_algebra::semigroup::mul_semigroup::MulSemigroup for Trivial {}

impl un_algebra::monoid::mul_monoid::MulMonoid for Trivial {
    fn one_spec() -> Self {
        unreachable!()
    }

    fn one() -> Self {
        Trivial
    }
}

impl un_algebra::ring::ring::Ring for Trivial {}

#[test]
fn the_trivial_ring_fails_the_axiom_of_identities() {
    assert!(!<Trivial as un_algebra::ring::ring::Ring>::axiom_identities());
    assert!(<Trivial as un_algebra::ring::ring::Ring>::axiom_left_distributivity((
        &Trivial, &Trivial, &Trivial
    )));
}
