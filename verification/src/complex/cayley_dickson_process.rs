//! The Cayley-Dickson construction.
//!
//! The construction doubles an algebra with conjugation: a pair of
//! values of the algebra is a value of the doubled algebra. Applied to
//! real scalars it gives the complex numbers, applied to those the
//! quaternions, then the octonions, and so on. Each step keeps the
//! ring operations and gives up a law: the complex numbers are not
//! their own conjugates, the quaternions do not commute, the octonions
//! do not associate.
//!
//! For pairs `(a, b)` and `(c, d)`, with `x*` the conjugate of `x`:
//!
//! - `(a, b) + (c, d) = (a + c, b + d)`
//! - `(a, b) * (c, d) = (a*c - d* * b, d*a + b*c*)`
//! - `(a, b)* = (a*, -b)`

use vstd::prelude::*;
use vstd::std_specs::cmp::PartialEqSpec;
use vstd::std_specs::cmp::PartialEqSpecImpl;
use crate::com_group::add_com_group::NumAddComGroup;
use crate::complex::complex::Real;
use crate::group::add_group::NumAddGroup;
use crate::magma::add_magma::NumAddMagma;
use crate::magma::mul_magma::NumMulMagma;
use crate::monoid::add_monoid::NumAddMonoid;
use crate::monoid::mul_monoid::NumMulMonoid;
use crate::numeric::equal::NumEq;
use crate::ring::ring::NumRing;
use crate::semigroup::add_semigroup::NumAddSemigroup;
use crate::semigroup::mul_semigroup::NumMulSemigroup;

verus! {

/// A container whose parts can be mapped one by one.
pub trait Functor {
    /// The type of the parts.
    type Wrapped;

    /// The parts of the container, in order.
    spec fn parts(&self) -> Seq<Self::Wrapped>;

    /// A container of the same shape that holds, in place of each
    /// part, what `f` returns for it.
    fn fmap<F>(&self, f: F) -> (r: Self) where F: Fn(&Self::Wrapped) -> Self::Wrapped, Self: Sized
        requires
            forall|i: int|
                0 <= i < self.parts().len() ==> call_requires(f, (&#[trigger] self.parts()[i],)),
        ensures
            r.parts().len() == self.parts().len(),
            forall|i: int|
                0 <= i < self.parts().len() ==> call_ensures(
                    f,
                    (&self.parts()[i],),
                    #[trigger] r.parts()[i],
                ),
    ;
}

/// A container whose parts can be combined, one by one, with the parts
/// of another container of the same shape.
pub trait BiFunctor {
    /// The type of the parts.
    type Wrapped;

    /// The parts of the container, in order.
    spec fn parts(&self) -> Seq<Self::Wrapped>;

    /// A container of the same shape that holds, in place of each
    /// part, what `f` returns for it and the part of `other` at the
    /// same place.
    fn fmap<F>(&self, other: &Self, f: F) -> (r: Self) where
        F: Fn(&Self::Wrapped, &Self::Wrapped) -> Self::Wrapped,
        Self: Sized,

        requires
            other.parts().len() == self.parts().len(),
            forall|i: int|
                0 <= i < self.parts().len() ==> call_requires(
                    f,
                    (&#[trigger] self.parts()[i], &other.parts()[i]),
                ),
        ensures
            r.parts().len() == self.parts().len(),
            forall|i: int|
                0 <= i < self.parts().len() ==> call_ensures(
                    f,
                    (&self.parts()[i], &other.parts()[i]),
                    #[trigger] r.parts()[i],
                ),
    ;
}

/// An algebra with conjugation, as the Cayley-Dickson construction
/// makes and takes them.
pub trait CayleyDicksonAlgebra: NumRing {
    /// The value of the conjugate `x*`.
    spec fn conjugate_spec(&self) -> Self;

    /// The conjugate of a value.
    fn conjugate(&self) -> (r: Self)
        ensures
            r == self.conjugate_spec(),
    ;
}

/// The base of the construction: a real scalar is its own conjugate.
impl<T> CayleyDicksonAlgebra for T where T: Real {
    open spec fn conjugate_spec(&self) -> Self {
        *self
    }

    fn conjugate(&self) -> Self {
        *self
    }
}

/// The step of the construction: a pair of values of one algebra is a
/// value of the doubled algebra.
#[derive(Debug)]
pub struct CayleyDicksonPair<T> where T: CayleyDicksonAlgebra {
    pub pair: (T, T),
}

/// The parts of a pair as a functor are its two halves.
pub proof fn lemma_functor_parts<T: CayleyDicksonAlgebra>(x: CayleyDicksonPair<T>)
    ensures
        Functor::parts(&x).len() == 2,
        Functor::parts(&x)[0] == x.pair.0,
        Functor::parts(&x)[1] == x.pair.1,
{
}

/// The parts of a pair as a bifunctor are its two halves.
pub proof fn lemma_bifunctor_parts<T: CayleyDicksonAlgebra>(x: CayleyDicksonPair<T>)
    ensures
        BiFunctor::parts(&x).len() == 2,
        BiFunctor::parts(&x)[0] == x.pair.0,
        BiFunctor::parts(&x)[1] == x.pair.1,
{
}

impl<T> Functor for CayleyDicksonPair<T> where T: CayleyDicksonAlgebra {
    type Wrapped = T;

    open spec fn parts(&self) -> Seq<T> {
        seq![self.pair.0, self.pair.1]
    }

    fn fmap<F>(&self, f: F) -> Self where F: Fn(&Self::Wrapped) -> Self::Wrapped {
        proof {
            lemma_functor_parts(*self);
        }
        let (ref a, ref b) = self.pair;
        let r = CayleyDicksonPair::new((f(a), f(b)));
        proof {
            lemma_functor_parts(r);
        }
        r
    }
}

impl<T> BiFunctor for CayleyDicksonPair<T> where T: CayleyDicksonAlgebra {
    type Wrapped = T;

    open spec fn parts(&self) -> Seq<T> {
        seq![self.pair.0, self.pair.1]
    }

    fn fmap<F>(&self, other: &Self, f: F) -> Self where
        F: Fn(&Self::Wrapped, &Self::Wrapped) -> Self::Wrapped,
    {
        proof {
            lemma_bifunctor_parts(*self);
            lemma_bifunctor_parts(*other);
        }
        let (ref a, ref b) = self.pair;
        let (ref c, ref d) = other.pair;
        let r = CayleyDicksonPair::new((f(a, c), f(b, d)));
        proof {
            lemma_bifunctor_parts(r);
        }
        r
    }
}

impl<T> CayleyDicksonPair<T> where T: CayleyDicksonAlgebra {
    /// The value of the doubled algebra with the given two halves.
    pub fn new(pair: (T, T)) -> (r: Self)
        ensures
            r.pair == pair,
    {
        CayleyDicksonPair { pair }
    }
}

impl<T> CayleyDicksonAlgebra for CayleyDicksonPair<T> where T: CayleyDicksonAlgebra {
    open spec fn conjugate_spec(&self) -> Self {
        CayleyDicksonPair { pair: (self.pair.0.conjugate_spec(), self.pair.1.negate_spec()) }
    }

    /// `(a, b)* = (a*, -b)`.
    fn conjugate(&self) -> Self {
        let (ref a, ref b) = self.pair;
        CayleyDicksonPair::new((a.conjugate(), b.negate()))
    }
}

impl<T> Clone for CayleyDicksonPair<T> where T: CayleyDicksonAlgebra + Clone {
    fn clone(&self) -> (r: Self)
        ensures
            cloned(self.pair.0, r.pair.0),
            cloned(self.pair.1, r.pair.1),
    {
        proof {
            lemma_functor_parts(*self);
        }
        let r = Functor::fmap(self, Clone::clone);
        proof {
            lemma_functor_parts(r);
        }
        r
    }
}

impl<T> NumRing for CayleyDicksonPair<T> where T: CayleyDicksonAlgebra {
}

impl<T> NumMulMonoid for CayleyDicksonPair<T> where T: CayleyDicksonAlgebra {
    open spec fn one_spec() -> Self {
        CayleyDicksonPair { pair: (T::one_spec(), T::zero_spec()) }
    }

    /// `1 = (1, 0)`.
    fn one() -> Self {
        CayleyDicksonPair::new((T::one(), T::zero()))
    }
}

impl<T> NumAddComGroup for CayleyDicksonPair<T> where T: CayleyDicksonAlgebra {
}

impl<T> NumAddGroup for CayleyDicksonPair<T> where T: CayleyDicksonAlgebra {
    open spec fn negate_spec(&self) -> Self {
        CayleyDicksonPair { pair: (self.pair.0.negate_spec(), self.pair.1.negate_spec()) }
    }

    /// `-(a, b) = (-a, -b)`.
    fn negate(&self) -> Self {
        proof {
            lemma_functor_parts(*self);
        }
        let r = Functor::fmap(self, T::negate);
        proof {
            lemma_functor_parts(r);
        }
        r
    }
}

impl<T> NumAddMonoid for CayleyDicksonPair<T> where T: CayleyDicksonAlgebra {
    open spec fn zero_spec() -> Self {
        CayleyDicksonPair { pair: (T::zero_spec(), T::zero_spec()) }
    }

    /// `0 = (0, 0)`.
    fn zero() -> Self {
        CayleyDicksonPair::new((T::zero(), T::zero()))
    }
}

impl<T> NumAddSemigroup for CayleyDicksonPair<T> where T: CayleyDicksonAlgebra {
}

impl<T> NumAddMagma for CayleyDicksonPair<T> where T: CayleyDicksonAlgebra {
    open spec fn add_spec(&self, other: &Self) -> Self {
        CayleyDicksonPair {
            pair: (
                self.pair.0.add_spec(&other.pair.0),
                self.pair.1.add_spec(&other.pair.1),
            ),
        }
    }

    /// `(a, b) + (c, d) = (a + c, b + d)`.
    fn add(&self, other: &Self) -> Self {
        proof {
            lemma_bifunctor_parts(*self);
            lemma_bifunctor_parts(*other);
        }
        let r = BiFunctor::fmap(self, other, T::add);
        proof {
            lemma_bifunctor_parts(r);
        }
        r
    }
}

impl<T> NumMulSemigroup for CayleyDicksonPair<T> where T: CayleyDicksonAlgebra {
}

impl<T> NumMulMagma for CayleyDicksonPair<T> where T: CayleyDicksonAlgebra {
    open spec fn mul_spec(&self, other: &Self) -> Self {
        let (a, b) = self.pair;
        let (c, d) = other.pair;
        CayleyDicksonPair {
            pair: (
                a.mul_spec(&c).add_spec(&d.conjugate_spec().mul_spec(&b).negate_spec()),
                d.mul_spec(&a).add_spec(&b.mul_spec(&c.conjugate_spec())),
            ),
        }
    }

    /// `(a, b) * (c, d) = (a*c - d* * b, d*a + b*c*)`.
    fn mul(&self, other: &Self) -> Self {
        let (ref a, ref b) = self.pair;
        let (ref c, ref d) = other.pair;
        CayleyDicksonPair::new(
            (
                a.mul(c).add(&d.conjugate().mul(b).negate()),
                d.mul(a).add(&b.mul(&c.conjugate())),
            ),
        )
    }
}

impl<T> NumEq for CayleyDicksonPair<T> where T: CayleyDicksonAlgebra {
    type Error = T::Error;

    open spec fn num_eq_spec(&self, other: &Self, eps: &Self::Error) -> bool {
        self.pair.0.num_eq_spec(&other.pair.0, eps) && self.pair.1.num_eq_spec(&other.pair.1, eps)
    }

    /// Two pairs are numerically equal if both halves are, within the
    /// same error term.
    fn num_eq(&self, other: &Self, eps: &Self::Error) -> bool {
        let (ref a, ref b) = self.pair;
        let (ref c, ref d) = other.pair;
        a.num_eq(c, eps) && b.num_eq(d, eps)
    }
}

impl<T> PartialEq for CayleyDicksonPair<T> where T: CayleyDicksonAlgebra {
    /// Two pairs are equal if both halves are.
    fn eq(&self, other: &Self) -> (r: bool) {
        let (ref a, ref b) = self.pair;
        let (ref c, ref d) = other.pair;
        a == c && b == d
    }
}

impl<T> PartialEqSpecImpl for CayleyDicksonPair<T> where T: CayleyDicksonAlgebra {
    open spec fn obeys_eq_spec() -> bool {
        T::obeys_eq_spec()
    }

    open spec fn eq_spec(&self, other: &Self) -> bool {
        self.pair.0.eq_spec(&other.pair.0) && self.pair.1.eq_spec(&other.pair.1)
    }
}

/// Maps that measure how far an algebra is from being real,
/// commutative and associative.
pub trait LinearMaps: CayleyDicksonAlgebra {
    /// `a - a*`. It vanishes on the real scalars.
    fn hermitator(a: &Self) -> (r: Self)
        ensures
            r == a.add_spec(&a.conjugate_spec().negate_spec()),
    ;

    /// `a * b - b * a`. It vanishes on the real scalars and on the
    /// complex numbers.
    fn commutator(a: &Self, b: &Self) -> (r: Self)
        ensures
            r == a.mul_spec(b).add_spec(&b.mul_spec(a).negate_spec()),
    ;

    /// `(a * b) * c - a * (b * c)`. It vanishes on the real scalars,
    /// on the complex numbers and on the quaternions.
    fn associator(a: &Self, b: &Self, c: &Self) -> (r: Self)
        ensures
            r == a.mul_spec(b).mul_spec(c).add_spec(&a.mul_spec(&b.mul_spec(c)).negate_spec()),
    ;
}

impl<T> LinearMaps for T where T: CayleyDicksonAlgebra {
    fn hermitator(a: &Self) -> Self {
        a.add(&a.conjugate().negate())
    }

    fn commutator(a: &Self, b: &Self) -> Self {
        a.mul(b).add(&b.mul(a).negate())
    }

    fn associator(a: &Self, b: &Self, c: &Self) -> Self {
        let ab_c = a.mul(b).mul(c);
        let a_bc = a.mul(&b.mul(c));
        ab_c.add(&a_bc.negate())
    }
}

/// Addition of pairs is associative within `eps` exactly where the
/// addition of both halves is.
pub proof fn lemma_pair_add_associative<T: CayleyDicksonAlgebra>(
    x: CayleyDicksonPair<T>,
    y: CayleyDicksonPair<T>,
    z: CayleyDicksonPair<T>,
    eps: T::Error,
)
    ensures
        x.add_spec(&y.add_spec(&z)).num_eq_spec(&x.add_spec(&y).add_spec(&z), &eps) <==> {
            &&& x.pair.0.add_spec(&y.pair.0.add_spec(&z.pair.0)).num_eq_spec(
                &x.pair.0.add_spec(&y.pair.0).add_spec(&z.pair.0),
                &eps,
            )
            &&& x.pair.1.add_spec(&y.pair.1.add_spec(&z.pair.1)).num_eq_spec(
                &x.pair.1.add_spec(&y.pair.1).add_spec(&z.pair.1),
                &eps,
            )
        },
{
}

/// The zero pair is a left and a right identity of the addition of
/// pairs within `eps` exactly where zero is one for both halves.
pub proof fn lemma_pair_add_identity<T: CayleyDicksonAlgebra>(x: CayleyDicksonPair<T>, eps: T::Error)
    ensures
        CayleyDicksonPair::<T>::zero_spec().add_spec(&x).num_eq_spec(&x, &eps) <==> {
            &&& T::zero_spec().add_spec(&x.pair.0).num_eq_spec(&x.pair.0, &eps)
            &&& T::zero_spec().add_spec(&x.pair.1).num_eq_spec(&x.pair.1, &eps)
        },
        x.add_spec(&CayleyDicksonPair::<T>::zero_spec()).num_eq_spec(&x, &eps) <==> {
            &&& x.pair.0.add_spec(&T::zero_spec()).num_eq_spec(&x.pair.0, &eps)
            &&& x.pair.1.add_spec(&T::zero_spec()).num_eq_spec(&x.pair.1, &eps)
        },
{
}

/// The negation of a pair is its left and its right inverse under
/// addition within `eps` exactly where that holds of both halves.
pub proof fn lemma_pair_negate_inverse<T: CayleyDicksonAlgebra>(x: CayleyDicksonPair<T>, eps: T::Error)
    ensures
        x.negate_spec().add_spec(&x).num_eq_spec(&CayleyDicksonPair::<T>::zero_spec(), &eps) <==> {
            &&& x.pair.0.negate_spec().add_spec(&x.pair.0).num_eq_spec(&T::zero_spec(), &eps)
            &&& x.pair.1.negate_spec().add_spec(&x.pair.1).num_eq_spec(&T::zero_spec(), &eps)
        },
        x.add_spec(&x.negate_spec()).num_eq_spec(&CayleyDicksonPair::<T>::zero_spec(), &eps) <==> {
            &&& x.pair.0.add_spec(&x.pair.0.negate_spec()).num_eq_spec(&T::zero_spec(), &eps)
            &&& x.pair.1.add_spec(&x.pair.1.negate_spec()).num_eq_spec(&T::zero_spec(), &eps)
        },
{
}

/// Addition of pairs is commutative within `eps` exactly where the
/// addition of both halves is.
pub proof fn lemma_pair_add_commutative<T: CayleyDicksonAlgebra>(
    x: CayleyDicksonPair<T>,
    y: CayleyDicksonPair<T>,
    eps: T::Error,
)
    ensures
        x.add_spec(&y).num_eq_spec(&y.add_spec(&x), &eps) <==> {
            &&& x.pair.0.add_spec(&y.pair.0).num_eq_spec(&y.pair.0.add_spec(&x.pair.0), &eps)
            &&& x.pair.1.add_spec(&y.pair.1).num_eq_spec(&y.pair.1.add_spec(&x.pair.1), &eps)
        },
{
}

/// Negating a pair twice gives it back exactly where that holds of
/// both halves, and conjugating a pair twice where conjugating the
/// first half twice and negating the second twice do.
pub proof fn lemma_pair_involutions<T: CayleyDicksonAlgebra>(x: CayleyDicksonPair<T>)
    ensures
        x.negate_spec().negate_spec() == x <==> {
            &&& x.pair.0.negate_spec().negate_spec() == x.pair.0
            &&& x.pair.1.negate_spec().negate_spec() == x.pair.1
        },
        x.conjugate_spec().conjugate_spec() == x <==> {
            &&& x.pair.0.conjugate_spec().conjugate_spec() == x.pair.0
            &&& x.pair.1.negate_spec().negate_spec() == x.pair.1
        },
{
}

} // verus!
