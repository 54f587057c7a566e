//! A normalized angle type: the IEEE-754 binary64 order and the
//! wraparound decisions of an angle kept in `(-π, π]`, verified on bit patterns.

pub mod angle;
pub mod binary64;
