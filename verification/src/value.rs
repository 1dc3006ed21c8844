//! Controller tag values.
//!
//! Tags are strongly typed: every read and write is parameterized by
//! exactly one of four atomic types. A value is a closed sum over those
//! types, matched exhaustively at read and write sites; it is immutable
//! once constructed, and a new value is built whenever a quantity changes.
//! Single-precision values are carried as their IEEE-754 binary32 bit
//! pattern, so that the verified logic can pass them through exactly; the
//! embedding program reinterprets the pattern at the protocol boundary.

use vstd::prelude::*;

verus! {

/// The atomic type of a controller tag.
#[derive(Clone, Copy, PartialEq, Eq, Structural, Debug)]
pub enum TagType {
    /// A single boolean.
    Bool,
    /// A 16-bit signed integer.
    Int16,
    /// A 32-bit signed integer.
    Int32,
    /// A 32-bit IEEE-754 number.
    Float32,
}

/// A typed tag value: the representation always matches the declared type.
#[derive(Clone, Copy, PartialEq, Eq, Structural, Debug)]
pub enum TagValue {
    /// A boolean value.
    Bool(bool),
    /// A 16-bit signed integer value.
    Int16(i16),
    /// A 32-bit signed integer value.
    Int32(i32),
    /// A 32-bit IEEE-754 value, carried as its bit pattern.
    Float32(u32),
}

impl TagValue {
    /// The declared type of this value.
    pub open spec fn spec_tag_type(self) -> TagType {
        match self {
            TagValue::Bool(_) => TagType::Bool,
            TagValue::Int16(_) => TagType::Int16,
            TagValue::Int32(_) => TagType::Int32,
            TagValue::Float32(_) => TagType::Float32,
        }
    }

    /// Returns the declared type of this value.
    pub fn tag_type(&self) -> (t: TagType)
        ensures
            t == self.spec_tag_type(),
    {
        match self {
            TagValue::Bool(_) => TagType::Bool,
            TagValue::Int16(_) => TagType::Int16,
            TagValue::Int32(_) => TagType::Int32,
            TagValue::Float32(_) => TagType::Float32,
        }
    }

    /// The binary32 bit pattern of a single-precision value, and nothing
    /// for a value of any other type.
    pub fn float_bits(&self) -> (r: Option<u32>)
        ensures
            match *self {
                TagValue::Float32(bits) => r == Some(bits),
                _ => r is None,
            },
    {
        match self {
            TagValue::Float32(bits) => Some(*bits),
            _ => None,
        }
    }
}

} // verus!
