//! Type aliases for the argument tuples of the axiom predicates.
//!
//! Most axiom and property predicates take two or three values of the
//! same type, and the numeric variants add an error term. The aliases
//! here group those parameters into tuples of references.

use vstd::prelude::*;
use crate::numeric::equal::NumEq;

verus! {

/// A 2-tuple of `T` references.
pub type Pair<'a, T> = (&'a T, &'a T);

/// A 2-tuple of `T` references with a numeric comparison error term.
pub type NumPair<'a, T> = (&'a T, &'a T, &'a <T as NumEq>::Error);

/// A 3-tuple of `T` references.
pub type Triple<'a, T> = (&'a T, &'a T, &'a T);

/// A 3-tuple of `T` references with a numeric comparison error term.
pub type NumTriple<'a, T> = (&'a T, &'a T, &'a T, &'a <T as NumEq>::Error);

} // verus!
