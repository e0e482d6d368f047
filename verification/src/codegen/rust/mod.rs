//! Definitions and instantiations of Rust items, and their source text.

pub mod definition;
pub mod instantiation;
