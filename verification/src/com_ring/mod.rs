//! Commutative rings: rings whose multiplication is commutative.

pub mod com_ring;
