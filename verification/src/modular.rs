//! Arithmetic modulo a positive number.
//!
//! The built-in integer types compute modulo a power of two: an
//! unsigned type keeps the residue in `[0, m)`, a signed type the
//! residue in `[-m/2, m/2)`. The lemmas here state the ring laws for
//! both kinds of residue, for any modulus; the laws of each integer
//! type follow with that type's modulus.

use vstd::prelude::*;
use vstd::arithmetic::div_mod::lemma_add_mod_noop;
use vstd::arithmetic::div_mod::lemma_fundamental_div_mod;
use vstd::arithmetic::div_mod::lemma_mod_add_multiples_vanish;
use vstd::arithmetic::div_mod::lemma_mod_bound;
use vstd::arithmetic::div_mod::lemma_mod_sub_multiples_vanish;
use vstd::arithmetic::div_mod::lemma_mod_twice;
use vstd::arithmetic::div_mod::lemma_mul_mod_noop_general;
use vstd::arithmetic::mul::lemma_mul_is_associative;
use vstd::arithmetic::mul::lemma_mul_is_commutative;
use vstd::arithmetic::mul::lemma_mul_is_distributive_add;
use vstd::arithmetic::mul::lemma_mul_unary_negation;

verus! {

/// The residue of `v` modulo `2 * half` that lies in `[-half, half)`.
pub open spec fn signed_residue(v: int, half: int) -> int {
    let r = v % (2 * half);
    if r >= half {
        r - 2 * half
    } else {
        r
    }
}

/// A signed residue lies in `[-half, half)` and is congruent to the
/// number it was taken of.
pub proof fn lemma_signed_residue(v: int, half: int)
    requires
        0 < half,
    ensures
        -half <= signed_residue(v, half) < half,
        signed_residue(v, half) % (2 * half) == v % (2 * half),
{
    let m = 2 * half;
    let r = v % m;
    lemma_mod_bound(v, m);
    lemma_mod_twice(v, m);
    if r >= half {
        lemma_mod_sub_multiples_vanish(r, m);
        assert(r - m == -m + r);
    }
}

/// A number that lies in `[-half, half)` is its own signed residue.
pub proof fn lemma_signed_residue_of_small(v: int, half: int)
    requires
        0 < half,
        -half <= v < half,
    ensures
        signed_residue(v, half) == v,
{
    let m = 2 * half;
    lemma_fundamental_div_mod(v, m);
    lemma_mod_bound(v, m);
    assert(v / m == 0 || v / m == -1) by (nonlinear_arith)
        requires
            0 < m,
            -m < v < m,
            v == m * (v / m) + v % m,
            0 <= v % m < m,
    ;
}

/// The signed residue of a number that lies at most one modulus away
/// from `[-half, half)`.
pub proof fn lemma_signed_residue_of_near(v: int, half: int)
    requires
        0 < half,
        -3 * half <= v < 3 * half,
    ensures
        signed_residue(v, half) == if v >= half {
            v - 2 * half
        } else if v < -half {
            v + 2 * half
        } else {
            v
        },
{
    let m = 2 * half;
    if v >= half {
        lemma_mod_sub_multiples_vanish(v, m);
        assert(v - m == -m + v);
        lemma_signed_residue_of_small(v - m, half);
    } else if v < -half {
        lemma_mod_add_multiples_vanish(v, m);
        assert(v + m == m + v);
        lemma_signed_residue_of_small(v + m, half);
    } else {
        lemma_signed_residue_of_small(v, half);
    }
}

/// Congruent numbers have the same signed residue.
pub proof fn lemma_signed_residue_congruent(a: int, b: int, half: int)
    requires
        a % (2 * half) == b % (2 * half),
    ensures
        signed_residue(a, half) == signed_residue(b, half),
{
}

/// Products of congruent numbers are congruent.
pub proof fn lemma_mul_congruent(a: int, b: int, c: int, d: int, m: int)
    requires
        0 < m,
        a % m == b % m,
        c % m == d % m,
    ensures
        (a * c) % m == (b * d) % m,
{
    lemma_mul_mod_noop_general(a, c, m);
    lemma_mul_mod_noop_general(b, d, m);
}

/// Sums of congruent numbers are congruent.
pub proof fn lemma_add_congruent(a: int, b: int, c: int, d: int, m: int)
    requires
        0 < m,
        a % m == b % m,
        c % m == d % m,
    ensures
        (a + c) % m == (b + d) % m,
{
    lemma_add_mod_noop(a, c, m);
    lemma_add_mod_noop(b, d, m);
}

/// Multiplication of residues in `[0, m)` is associative.
pub proof fn lemma_residue_mul_associative(x: int, y: int, z: int, m: int)
    requires
        0 < m,
    ensures
        (x * ((y * z) % m)) % m == (((x * y) % m) * z) % m,
{
    lemma_mul_mod_noop_general(x, y * z, m);
    lemma_mul_mod_noop_general(x * y, z, m);
    lemma_mul_is_associative(x, y, z);
}

/// Multiplication of signed residues is associative.
pub proof fn lemma_signed_mul_associative(x: int, y: int, z: int, half: int)
    requires
        0 < half,
    ensures
        signed_residue(x * signed_residue(y * z, half), half) == signed_residue(
            signed_residue(x * y, half) * z,
            half,
        ),
{
    let m = 2 * half;
    lemma_signed_residue(y * z, half);
    lemma_signed_residue(x * y, half);
    lemma_mul_congruent(x, x, signed_residue(y * z, half), y * z, m);
    lemma_mul_congruent(signed_residue(x * y, half), x * y, z, z, m);
    lemma_mul_is_associative(x, y, z);
}

/// Multiplication of signed residues is commutative.
pub proof fn lemma_signed_mul_commutative(x: int, y: int, half: int)
    ensures
        signed_residue(x * y, half) == signed_residue(y * x, half),
{
    lemma_mul_is_commutative(x, y);
}

/// Multiplication of signed residues distributes over their addition,
/// from the left and from the right.
pub proof fn lemma_signed_mul_distributive(x: int, y: int, z: int, half: int)
    requires
        0 < half,
    ensures
        signed_residue(x * signed_residue(y + z, half), half) == signed_residue(
            signed_residue(x * y, half) + signed_residue(x * z, half),
            half,
        ),
        signed_residue(signed_residue(y + z, half) * x, half) == signed_residue(
            signed_residue(y * x, half) + signed_residue(z * x, half),
            half,
        ),
{
    let m = 2 * half;
    lemma_signed_residue(y + z, half);
    lemma_signed_residue(x * y, half);
    lemma_signed_residue(x * z, half);
    lemma_mul_congruent(x, x, signed_residue(y + z, half), y + z, m);
    lemma_add_congruent(signed_residue(x * y, half), x * y, signed_residue(x * z, half), x * z, m);
    lemma_mul_is_distributive_add(x, y, z);
    lemma_signed_residue_congruent(
        x * signed_residue(y + z, half),
        signed_residue(x * y, half) + signed_residue(x * z, half),
        half,
    );
    lemma_mul_is_commutative(x, signed_residue(y + z, half));
    lemma_mul_is_commutative(x, y);
    lemma_mul_is_commutative(x, z);
}

/// Negation of signed residues passes through their multiplication:
/// `x * -y` and `-x * y` are `-(x * y)`, and `-x * -y` is `x * y`.
pub proof fn lemma_signed_mul_negation(x: int, y: int, half: int)
    requires
        0 < half,
    ensures
        signed_residue(x * signed_residue(-y, half), half) == signed_residue(
            -signed_residue(x * y, half),
            half,
        ),
        signed_residue(signed_residue(-x, half) * y, half) == signed_residue(
            -signed_residue(x * y, half),
            half,
        ),
        signed_residue(signed_residue(-x, half) * signed_residue(-y, half), half)
            == signed_residue(x * y, half),
{
    let m = 2 * half;
    lemma_signed_residue(-x, half);
    lemma_signed_residue(-y, half);
    lemma_signed_residue(x * y, half);
    lemma_mul_congruent(-1, -1, signed_residue(x * y, half), x * y, m);
    lemma_mul_congruent(x, x, signed_residue(-y, half), -y, m);
    lemma_mul_congruent(signed_residue(-x, half), -x, y, y, m);
    lemma_mul_congruent(signed_residue(-x, half), -x, signed_residue(-y, half), -y, m);
    lemma_mul_unary_negation(x, y);
    lemma_mul_unary_negation(-x, y);
}

} // verus!
