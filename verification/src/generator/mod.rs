//! The RFC 5053 generators (Section 5.4.4).

pub mod degree_generator;
pub mod random_generator;
