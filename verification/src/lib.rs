//! A small verified library: addition of 32-bit signed integers with an
//! exact contract, and a three-line text report built on it.

pub mod arith;
pub mod report;
