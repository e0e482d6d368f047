//! The Rust items that implement an IDL interface with the C ABI.

use vstd::prelude::*;

use crate::ast::xclass::SpecXClass;

pub mod alien_struct;
pub mod instance_struct;
pub mod interface;
pub mod method;
pub mod shared_struct;

verus! {

/// An XClass together with the checksum of the IDL description it comes from.
pub struct SpecXClassCode {
    pub idl_checksum: u64,
    pub xclass: SpecXClass,
}

} // verus!
