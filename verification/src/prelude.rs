//! The public items of the crate under one path.

pub use crate::com_group::add_com_group::AddComGroup;
pub use crate::com_group::add_com_group::NumAddComGroup;
pub use crate::com_group::com_group::ComGroup;
pub use crate::com_group::mul_com_group::MulComGroup;
pub use crate::com_group::mul_com_group::NumMulComGroup;
pub use crate::com_ring::com_ring::ComRing;
pub use crate::com_ring::com_ring::NumComRing;
pub use crate::complex::cayley_dickson_process::BiFunctor;
pub use crate::complex::cayley_dickson_process::CayleyDicksonAlgebra;
pub use crate::complex::cayley_dickson_process::CayleyDicksonPair;
pub use crate::complex::cayley_dickson_process::Functor;
pub use crate::complex::cayley_dickson_process::LinearMaps;
pub use crate::complex::complex::Real;
pub use crate::field::field::Field;
pub use crate::field::field::NumField;
pub use crate::finite::binary::F2;
pub use crate::finite::f4::F4;
pub use crate::group::add_group::AddGroup;
pub use crate::group::add_group::NumAddGroup;
pub use crate::group::group::Group;
pub use crate::group::mul_group::MulGroup;
pub use crate::group::mul_group::NotInvertible;
pub use crate::group::mul_group::NumMulGroup;
pub use crate::magma::add_magma::AddMagma;
pub use crate::magma::add_magma::NumAddMagma;
pub use crate::magma::magma::Magma;
pub use crate::magma::mul_magma::MulMagma;
pub use crate::magma::mul_magma::NumMulMagma;
pub use crate::monoid::add_monoid::AddMonoid;
pub use crate::monoid::add_monoid::NumAddMonoid;
pub use crate::monoid::monoid::Monoid;
pub use crate::monoid::mul_monoid::MulMonoid;
pub use crate::monoid::mul_monoid::NumMulMonoid;
pub use crate::numeric::equal::NumEq;
pub use crate::rational::fraction::Fraction;
pub use crate::rational::rational::Rational;
pub use crate::ring::ring::NumRing;
pub use crate::ring::ring::Ring;
pub use crate::semigroup::add_semigroup::AddSemigroup;
pub use crate::semigroup::add_semigroup::NumAddSemigroup;
pub use crate::semigroup::mul_semigroup::MulSemigroup;
pub use crate::semigroup::mul_semigroup::NumMulSemigroup;
pub use crate::semigroup::semigroup::Semigroup;
pub use crate::types::NumPair;
pub use crate::types::NumTriple;
pub use crate::types::Pair;
pub use crate::types::Triple;
