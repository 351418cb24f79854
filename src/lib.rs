//! Lowering of 32-bit unsigned integer operations into a small block-structured
//! intermediate representation, together with an interpreter that gives that
//! representation its meaning.

pub mod felt;
pub mod ir;
pub mod eval;
pub mod uint32;
pub mod laws;
