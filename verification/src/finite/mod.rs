//! Finite fields.
//!
//! Two small fields, with every operation written out as a table and
//! every field axiom proved of it.

pub mod binary;

pub mod f4;
