//! Reading of Danfoss IDL interface descriptions into a syntax tree, and
//! generation of the Rust source text that implements the described
//! compiled code package with the C ABI that the IDL prescribes.
//!
//! The grammar-level parse of the `.idl` text yields a tree of [`pair::Pair`]
//! nodes; [`ast`] turns that tree into the interface model, and [`codegen`]
//! turns the model into definitions and renders them as Rust source text.


pub mod ast;
pub mod codegen;
pub mod external;
pub mod pair;
pub mod seqs;
pub mod text;
