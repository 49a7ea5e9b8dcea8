//! Commutative groups: groups whose operation is commutative.
//!
//! Besides the abstract commutative group there are additive and
//! multiplicative commutative groups, each with a numeric counterpart.

pub mod com_group;

pub mod add_com_group;

pub mod mul_com_group;
