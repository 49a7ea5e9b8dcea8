//! Algebras built by doubling: complex numbers, quaternions and
//! beyond, over a scalar type that stands for the real numbers.

pub mod complex;

pub mod cayley_dickson_process;
