//! Raptor-10 (RFC 5053) building blocks: the degree generator, the
//! pseudo-random generator and a cached binary HDPC precode.

pub mod generator;

pub use generator::{degree_generator, random_generator};
#[allow(non_snake_case)]
pub mod cached_R10HDPC;
