//! The types that values can have.

use vstd::prelude::*;

verus! {

/// The type of a value. Types are plain descriptors: they are compared and
/// copied, never inspected, by the instruction layer.
#[derive(Clone, Copy, Debug, PartialEq, Eq, Structural, Hash)]
pub enum Type {
    /// The type of an instruction that yields no value.
    Void,
    /// An integer of the given width in bits.
    Int(u32),
}

} // verus!
