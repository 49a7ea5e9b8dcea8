//! The scalars of the doubling construction.

use vstd::prelude::*;
use crate::field::field::NumField;
use crate::numeric::equal::NumEq;

verus! {

/// A type that stands for the real numbers: a numeric field whose
/// values are plain copyable scalars, such as a floating point type.
///
/// A real scalar is its own conjugate, which makes it the base of the
/// doubling construction.
pub trait Real: NumField + NumEq + Copy {
}

} // verus!
