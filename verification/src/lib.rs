//! Instruction and value representation for a compiler intermediate
//! representation: unique value identities, typed instruction handles, the
//! closed set of instruction kinds with their result types and mnemonics, and
//! iteration over the instructions of a unit.

pub mod inst;
pub mod ty;
pub mod unit;
pub mod value;
