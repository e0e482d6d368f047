//! Generation of Rust source from the interface model.

pub mod idl;
pub mod rust;
