//! Fractions of integers: the mathematical model of a rational number.
//!
//! A fraction is a numerator over a denominator other than zero. Many
//! fractions stand for one rational number: `1/2` and `2/4` are
//! equivalent, not equal. The operations here are the school rules,
//! without reduction to lowest terms, and the lemmas state the field
//! laws for them up to equivalence.

use vstd::prelude::*;

verus! {

/// A numerator over a denominator.
pub struct Fraction {
    pub numer: int,
    pub denom: int,
}

impl Fraction {
    /// The fraction `numer/denom`.
    pub open spec fn new(numer: int, denom: int) -> Fraction {
        Fraction { numer, denom }
    }

    /// The fraction `n/1`.
    pub open spec fn of_integer(n: int) -> Fraction {
        Fraction { numer: n, denom: 1 }
    }

    /// Whether two fractions stand for the same rational number:
    /// `a/b ~ c/d` if `a*d = c*b`.
    pub open spec fn equiv(self, other: Fraction) -> bool {
        self.numer * other.denom == other.numer * self.denom
    }

    /// `a/b + c/d = (a*d + c*b)/(b*d)`.
    pub open spec fn sum(self, other: Fraction) -> Fraction {
        Fraction {
            numer: self.numer * other.denom + other.numer * self.denom,
            denom: self.denom * other.denom,
        }
    }

    /// `a/b * c/d = (a*c)/(b*d)`.
    pub open spec fn product(self, other: Fraction) -> Fraction {
        Fraction { numer: self.numer * other.numer, denom: self.denom * other.denom }
    }

    /// `-(a/b) = (-a)/b`.
    pub open spec fn negation(self) -> Fraction {
        Fraction { numer: -self.numer, denom: self.denom }
    }

    /// `(a/b)^-1 = b/a`, written so that the sign stays in the
    /// numerator: `(-b)/(-a)` for a negative `a`.
    pub open spec fn reciprocal(self) -> Fraction {
        if self.numer >= 0 {
            Fraction { numer: self.denom, denom: self.numer }
        } else {
            Fraction { numer: -self.denom, denom: -self.numer }
        }
    }
}

/// `(w*x)*(y*z) = (w*y)*(x*z)`: the middle factors of a product of two
/// products change places.
proof fn lemma_mul_interchange(w: int, x: int, y: int, z: int)
    ensures
        (w * x) * (y * z) == (w * y) * (x * z),
{
    assert((w * x) * (y * z) == w * (x * (y * z))) by (nonlinear_arith);
    assert(x * (y * z) == y * (x * z)) by (nonlinear_arith);
    assert(w * (y * (x * z)) == (w * y) * (x * z)) by (nonlinear_arith);
}

/// Equivalence of fractions is transitive across a fraction with a
/// denominator other than zero.
pub proof fn lemma_equiv_transitive(p: Fraction, q: Fraction, r: Fraction)
    requires
        p.equiv(q),
        q.equiv(r),
        q.denom != 0,
    ensures
        p.equiv(r),
{
    let (a, b) = (p.numer, p.denom);
    let (c, d) = (q.numer, q.denom);
    let (e, f) = (r.numer, r.denom);
    assert((a * f) * d == (e * b) * d) by (nonlinear_arith)
        requires
            a * d == c * b,
            c * f == e * d,
    ;
    assert(a * f == e * b) by (nonlinear_arith)
        requires
            (a * f) * d == (e * b) * d,
            d != 0,
    ;
}

/// Equivalence is the same between two fractions and between two
/// fractions equivalent to them, where no denominator is zero.
pub proof fn lemma_equiv_congruent(p: Fraction, p2: Fraction, q: Fraction, q2: Fraction)
    requires
        p.equiv(p2),
        q.equiv(q2),
        p.denom != 0,
        p2.denom != 0,
        q.denom != 0,
        q2.denom != 0,
    ensures
        p.equiv(q) <==> p2.equiv(q2),
{
    assert(p2.equiv(p));
    assert(q2.equiv(q));
    if p.equiv(q) {
        lemma_equiv_transitive(p2, p, q);
        lemma_equiv_transitive(p2, q, q2);
    }
    if p2.equiv(q2) {
        lemma_equiv_transitive(p, p2, q2);
        lemma_equiv_transitive(p, q2, q);
    }
}

/// Sums of equivalent fractions are equivalent.
pub proof fn lemma_sum_congruent(p: Fraction, p2: Fraction, q: Fraction, q2: Fraction)
    requires
        p.equiv(p2),
        q.equiv(q2),
    ensures
        p.sum(q).equiv(p2.sum(q2)),
{
    let (a, b) = (p.numer, p.denom);
    let (a2, b2) = (p2.numer, p2.denom);
    let (c, d) = (q.numer, q.denom);
    let (c2, d2) = (q2.numer, q2.denom);
    // Both cross products are (a*b2)*(d*d2) + (c*d2)*(b*b2).
    assert((a * d + c * b) * (b2 * d2) == (a * d) * (b2 * d2) + (c * b) * (b2 * d2))
        by (nonlinear_arith);
    lemma_mul_interchange(a, d, b2, d2);
    lemma_mul_interchange(c, b, d2, b2);
    assert(b2 * d2 == d2 * b2) by (nonlinear_arith);
    assert((a2 * d2 + c2 * b2) * (b * d) == (a2 * d2) * (b * d) + (c2 * b2) * (b * d))
        by (nonlinear_arith);
    lemma_mul_interchange(a2, d2, b, d);
    lemma_mul_interchange(c2, b2, d, b);
    assert(b * d == d * b) by (nonlinear_arith);
    assert(d2 * d == d * d2 && b2 * b == b * b2) by (nonlinear_arith);
}

/// Products of equivalent fractions are equivalent.
pub proof fn lemma_product_congruent(p: Fraction, p2: Fraction, q: Fraction, q2: Fraction)
    requires
        p.equiv(p2),
        q.equiv(q2),
    ensures
        p.product(q).equiv(p2.product(q2)),
{
    let (a, b) = (p.numer, p.denom);
    let (a2, b2) = (p2.numer, p2.denom);
    let (c, d) = (q.numer, q.denom);
    let (c2, d2) = (q2.numer, q2.denom);
    assert((a * c) * (b2 * d2) == (a2 * c2) * (b * d)) by (nonlinear_arith)
        requires
            a * b2 == a2 * b,
            c * d2 == c2 * d,
    ;
}

/// Negations of equivalent fractions are equivalent.
pub proof fn lemma_negation_congruent(p: Fraction, p2: Fraction)
    requires
        p.equiv(p2),
    ensures
        p.negation().equiv(p2.negation()),
{
    let (a, b) = (p.numer, p.denom);
    let (a2, b2) = (p2.numer, p2.denom);
    assert((-a) * b2 == (-a2) * b) by (nonlinear_arith)
        requires
            a * b2 == a2 * b,
    ;
}

/// Reciprocals of equivalent fractions with positive denominators are
/// equivalent, and a fraction equivalent to one other than zero is
/// other than zero.
pub proof fn lemma_reciprocal_congruent(p: Fraction, p2: Fraction)
    requires
        p.equiv(p2),
        p.denom > 0,
        p2.denom > 0,
    ensures
        p.numer > 0 <==> p2.numer > 0,
        p.numer < 0 <==> p2.numer < 0,
        p.reciprocal().equiv(p2.reciprocal()),
{
    let (a, b) = (p.numer, p.denom);
    let (a2, b2) = (p2.numer, p2.denom);
    assert((a > 0 <==> a2 > 0) && (a < 0 <==> a2 < 0)) by (nonlinear_arith)
        requires
            a * b2 == a2 * b,
            b > 0,
            b2 > 0,
    ;
    assert(b * a2 == b2 * a && (-b) * (-a2) == (-b2) * (-a)) by (nonlinear_arith)
        requires
            a * b2 == a2 * b,
    ;
}

/// Addition of fractions is associative.
pub proof fn lemma_sum_associative(p: Fraction, q: Fraction, r: Fraction)
    ensures
        p.sum(q.sum(r)) == p.sum(q).sum(r),
{
    let (a, b) = (p.numer, p.denom);
    let (c, d) = (q.numer, q.denom);
    let (e, f) = (r.numer, r.denom);
    assert((c * f + e * d) * b == (c * f) * b + (e * d) * b) by (nonlinear_arith);
    assert((a * d + c * b) * f == (a * d) * f + (c * b) * f) by (nonlinear_arith);
    assert(a * (d * f) == (a * d) * f) by (nonlinear_arith);
    assert((c * f) * b == (c * b) * f) by (nonlinear_arith);
    assert((e * d) * b == e * (b * d)) by (nonlinear_arith);
    assert(b * (d * f) == (b * d) * f) by (nonlinear_arith);
}

/// Addition of fractions is commutative.
pub proof fn lemma_sum_commutative(p: Fraction, q: Fraction)
    ensures
        p.sum(q) == q.sum(p),
{
    assert(p.denom * q.denom == q.denom * p.denom) by (nonlinear_arith);
}

/// `0/1` is a left and a right identity of the addition of fractions.
pub proof fn lemma_sum_identity(p: Fraction)
    ensures
        Fraction::of_integer(0).sum(p) == p,
        p.sum(Fraction::of_integer(0)) == p,
{
}

/// The negation of a fraction is its inverse under addition: both
/// sums are equivalent to `0/1`.
pub proof fn lemma_sum_inverse(p: Fraction)
    ensures
        p.negation().sum(p).equiv(Fraction::of_integer(0)),
        p.sum(p.negation()).equiv(Fraction::of_integer(0)),
{
    let (a, b) = (p.numer, p.denom);
    assert((-a) * b + a * b == 0 && a * b + (-a) * b == 0) by (nonlinear_arith);
}

/// Negating a fraction twice gives it back.
pub proof fn lemma_negation_involutive(p: Fraction)
    ensures
        p.negation().negation() == p,
{
}

/// Multiplication of fractions is associative.
pub proof fn lemma_product_associative(p: Fraction, q: Fraction, r: Fraction)
    ensures
        p.product(q.product(r)) == p.product(q).product(r),
{
    let (a, b) = (p.numer, p.denom);
    let (c, d) = (q.numer, q.denom);
    let (e, f) = (r.numer, r.denom);
    assert(a * (c * e) == (a * c) * e) by (nonlinear_arith);
    assert(b * (d * f) == (b * d) * f) by (nonlinear_arith);
}

/// Multiplication of fractions is commutative.
pub proof fn lemma_product_commutative(p: Fraction, q: Fraction)
    ensures
        p.product(q) == q.product(p),
{
    assert(p.numer * q.numer == q.numer * p.numer) by (nonlinear_arith);
    assert(p.denom * q.denom == q.denom * p.denom) by (nonlinear_arith);
}

/// `1/1` is a left and a right identity of the multiplication of
/// fractions.
pub proof fn lemma_product_identity(p: Fraction)
    ensures
        Fraction::of_integer(1).product(p) == p,
        p.product(Fraction::of_integer(1)) == p,
{
}

/// The reciprocal of a fraction other than zero is its inverse under
/// multiplication: both products are equivalent to `1/1`.
pub proof fn lemma_product_inverse(p: Fraction)
    requires
        p.numer != 0,
    ensures
        p.reciprocal().product(p).equiv(Fraction::of_integer(1)),
        p.product(p.reciprocal()).equiv(Fraction::of_integer(1)),
{
    let (a, b) = (p.numer, p.denom);
    assert(b * a == a * b && (-b) * a == (-a) * b && a * (-b) == b * (-a)) by (nonlinear_arith);
}

/// Multiplication of fractions distributes over their addition, from
/// the left and from the right, up to equivalence.
pub proof fn lemma_product_distributive(p: Fraction, q: Fraction, r: Fraction)
    ensures
        p.product(q.sum(r)).equiv(p.product(q).sum(p.product(r))),
        q.sum(r).product(p).equiv(q.product(p).sum(r.product(p))),
{
    let (a, b) = (p.numer, p.denom);
    let (c, d) = (q.numer, q.denom);
    let (e, f) = (r.numer, r.denom);
    // The sum of the products is the product with the sum, with both
    // the numerator and the denominator multiplied by `b`.
    let n = a * (c * f + e * d);
    let m = b * (d * f);
    assert(a * (c * f + e * d) == a * (c * f) + a * (e * d)) by (nonlinear_arith);
    assert((a * c) * (b * f) == b * (a * (c * f))) by {
        lemma_mul_interchange(a, c, b, f);
        assert((a * b) * (c * f) == b * (a * (c * f))) by (nonlinear_arith);
    }
    assert((a * e) * (b * d) == b * (a * (e * d))) by {
        lemma_mul_interchange(a, e, b, d);
        assert((a * b) * (e * d) == b * (a * (e * d))) by (nonlinear_arith);
    }
    assert(b * (a * (c * f)) + b * (a * (e * d)) == b * (a * (c * f) + a * (e * d)))
        by (nonlinear_arith);
    assert((b * d) * (b * f) == b * (b * (d * f))) by {
        lemma_mul_interchange(b, d, b, f);
        assert((b * b) * (d * f) == b * (b * (d * f))) by (nonlinear_arith);
    }
    assert(n * (b * m) == (b * n) * m) by (nonlinear_arith);
    assert(p.product(q.sum(r)).equiv(p.product(q).sum(p.product(r))));
    lemma_product_commutative(p, q.sum(r));
    lemma_product_commutative(p, q);
    lemma_product_commutative(p, r);
}

/// `0/1` absorbs under the multiplication of fractions, on either
/// side, up to equivalence.
pub proof fn lemma_product_zero(p: Fraction)
    ensures
        p.product(Fraction::of_integer(0)).equiv(Fraction::of_integer(0)),
        Fraction::of_integer(0).product(p).equiv(Fraction::of_integer(0)),
{
}

/// Negation of fractions passes through their multiplication:
/// `p * -q` and `-p * q` are `-(p * q)`, and `-p * -q` is `p * q`.
pub proof fn lemma_product_negation(p: Fraction, q: Fraction)
    ensures
        p.product(q.negation()) == p.product(q).negation(),
        p.negation().product(q) == p.product(q).negation(),
        p.negation().product(q.negation()) == p.product(q),
{
    let (a, c) = (p.numer, q.numer);
    assert(a * (-c) == -(a * c) && (-a) * c == -(a * c) && (-a) * (-c) == a * c)
        by (nonlinear_arith);
}

/// Multiplying a fraction by `-1/1` negates it, on either side.
pub proof fn lemma_product_minus_one(p: Fraction)
    ensures
        Fraction::of_integer(1).negation().product(p) == p.negation(),
        p.product(Fraction::of_integer(1).negation()) == p.negation(),
{
    let (a, b) = (p.numer, p.denom);
    assert((-1) * a == -a && a * (-1) == -a && 1 * b == b && b * 1 == b) by (nonlinear_arith);
}

/// A fraction is equivalent to `0/1` exactly if its numerator is
/// zero.
pub proof fn lemma_equiv_zero(p: Fraction)
    ensures
        p.equiv(Fraction::of_integer(0)) <==> p.numer == 0,
{
}

/// Fractions have no zero divisors: a product is equivalent to `0/1`
/// only if a factor is.
pub proof fn lemma_product_no_zero_divisors(p: Fraction, q: Fraction)
    requires
        p.product(q).equiv(Fraction::of_integer(0)),
    ensures
        p.equiv(Fraction::of_integer(0)) || q.equiv(Fraction::of_integer(0)),
{
    let (a, c) = (p.numer, q.numer);
    assert(a == 0 || c == 0) by (nonlinear_arith)
        requires
            a * c == 0,
    ;
}

/// Addition of a fraction can be cancelled: `p + q ~ r + q` only if
/// `p ~ r`.
pub proof fn lemma_sum_cancel(p: Fraction, q: Fraction, r: Fraction)
    requires
        p.sum(q).equiv(r.sum(q)),
        q.denom != 0,
    ensures
        p.equiv(r),
{
    let (a, b) = (p.numer, p.denom);
    let (c, d) = (q.numer, q.denom);
    let (e, f) = (r.numer, r.denom);
    // (a*d + c*b) * (f*d) == (e*d + c*f) * (b*d)
    assert((a * d + c * b) * (f * d) == (a * d) * (f * d) + (c * b) * (f * d)) by (nonlinear_arith);
    assert((e * d + c * f) * (b * d) == (e * d) * (b * d) + (c * f) * (b * d)) by (nonlinear_arith);
    lemma_mul_interchange(a, d, f, d);
    lemma_mul_interchange(e, d, b, d);
    lemma_mul_interchange(c, b, f, d);
    lemma_mul_interchange(c, f, b, d);
    assert((c * f) * (b * d) == (c * b) * (f * d)) by {
        assert((b * d) == (d * b) && (f * d) == (d * f)) by (nonlinear_arith);
        lemma_mul_interchange(c, f, d, b);
        lemma_mul_interchange(c, b, d, f);
        assert((c * d) * (f * b) == (c * d) * (b * f)) by (nonlinear_arith);
    }
    assert((a * f) * (d * d) == (e * b) * (d * d));
    assert(a * f == e * b) by (nonlinear_arith)
        requires
            (a * f) * (d * d) == (e * b) * (d * d),
            d != 0,
    ;
}

/// Multiplication by a fraction other than zero can be cancelled:
/// `p * q ~ r * q` only if `p ~ r`.
pub proof fn lemma_product_cancel(p: Fraction, q: Fraction, r: Fraction)
    requires
        p.product(q).equiv(r.product(q)),
        q.numer != 0,
        q.denom != 0,
    ensures
        p.equiv(r),
{
    let (a, b) = (p.numer, p.denom);
    let (c, d) = (q.numer, q.denom);
    let (e, f) = (r.numer, r.denom);
    // (a*c) * (f*d) == (e*c) * (b*d)
    lemma_mul_interchange(a, c, f, d);
    lemma_mul_interchange(e, c, b, d);
    assert(a * f == e * b) by (nonlinear_arith)
        requires
            (a * f) * (c * d) == (e * b) * (c * d),
            c != 0,
            d != 0,
    ;
}

} // verus!
