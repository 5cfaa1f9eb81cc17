//! The nine element kinds, the width of an element of each, and the order in
//! which a value of unknown type is tried against them.

use vstd::prelude::*;

verus! {

/// What the elements of a typed array are. The variants stand in the order
/// in which classification tries them.
#[derive(Copy, Clone, PartialEq, Eq, Structural, Hash, Debug)]
pub enum ElementKind {
    /// Signed, 8 bits.
    Int8,
    /// Unsigned, 8 bits.
    Uint8,
    /// Unsigned, 8 bits; a store outside the range saturates.
    Uint8Clamped,
    /// Signed, 16 bits.
    Int16,
    /// Unsigned, 16 bits.
    Uint16,
    /// Signed, 32 bits.
    Int32,
    /// Unsigned, 32 bits.
    Uint32,
    /// IEEE 754 binary32.
    Float32,
    /// IEEE 754 binary64.
    Float64,
}

impl ElementKind {
    /// The number of bytes that one element occupies.
    pub open spec fn spec_width(self) -> u32 {
        match self {
            ElementKind::Int8 | ElementKind::Uint8 | ElementKind::Uint8Clamped => 1,
            ElementKind::Int16 | ElementKind::Uint16 => 2,
            ElementKind::Int32 | ElementKind::Uint32 | ElementKind::Float32 => 4,
            ElementKind::Float64 => 8,
        }
    }

    /// The place of the kind in the order of classification, from 0.
    pub open spec fn rank(self) -> nat {
        match self {
            ElementKind::Int8 => 0,
            ElementKind::Uint8 => 1,
            ElementKind::Uint8Clamped => 2,
            ElementKind::Int16 => 3,
            ElementKind::Uint16 => 4,
            ElementKind::Int32 => 5,
            ElementKind::Uint32 => 6,
            ElementKind::Float32 => 7,
            ElementKind::Float64 => 8,
        }
    }

    /// The kind that is tried after this one, if any is left.
    pub open spec fn spec_next(self) -> Option<ElementKind> {
        match self {
            ElementKind::Int8 => Some(ElementKind::Uint8),
            ElementKind::Uint8 => Some(ElementKind::Uint8Clamped),
            ElementKind::Uint8Clamped => Some(ElementKind::Int16),
            ElementKind::Int16 => Some(ElementKind::Uint16),
            ElementKind::Uint16 => Some(ElementKind::Int32),
            ElementKind::Int32 => Some(ElementKind::Uint32),
            ElementKind::Uint32 => Some(ElementKind::Float32),
            ElementKind::Float32 => Some(ElementKind::Float64),
            ElementKind::Float64 => None,
        }
    }

    /// The number of bytes that one element occupies.
    #[verifier::when_used_as_spec(spec_width)]
    pub fn width(self) -> (w: u32)
        ensures
            w == self.spec_width(),
    {
        match self {
            ElementKind::Int8 | ElementKind::Uint8 | ElementKind::Uint8Clamped => 1,
            ElementKind::Int16 | ElementKind::Uint16 => 2,
            ElementKind::Int32 | ElementKind::Uint32 | ElementKind::Float32 => 4,
            ElementKind::Float64 => 8,
        }
    }

    /// The kind that classification tries first.
    pub fn first() -> (k: ElementKind)
        ensures
            k.rank() == 0,
            k == ElementKind::Int8,
    {
        ElementKind::Int8
    }

    /// The kind that is tried after this one, or `None` after the last.
    #[verifier::when_used_as_spec(spec_next)]
    pub fn next(self) -> (n: Option<ElementKind>)
        ensures
            n == self.spec_next(),
    {
        match self {
            ElementKind::Int8 => Some(ElementKind::Uint8),
            ElementKind::Uint8 => Some(ElementKind::Uint8Clamped),
            ElementKind::Uint8Clamped => Some(ElementKind::Int16),
            ElementKind::Int16 => Some(ElementKind::Uint16),
            ElementKind::Uint16 => Some(ElementKind::Int32),
            ElementKind::Int32 => Some(ElementKind::Uint32),
            ElementKind::Uint32 => Some(ElementKind::Float32),
            ElementKind::Float32 => Some(ElementKind::Float64),
            ElementKind::Float64 => None,
        }
    }

    /// The order of classification goes through every kind once: the ranks
    /// are the numbers 0 to 8, no two kinds share one, and `next` goes from
    /// each rank to the one above it until the last.
    pub proof fn lemma_order(self, other: ElementKind)
        ensures
            self.rank() <= 8,
            self.rank() == other.rank() ==> self == other,
            self.spec_next() matches Some(n) ==> n.rank() == self.rank() + 1,
            self.spec_next() is None <==> self.rank() == 8,
    {
    }
}

} // verus!
