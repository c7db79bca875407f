use vstd::prelude::*;

verus! {

/// The ways a decode can fail. Decoding is all-or-nothing: the first failure
/// anywhere in the tree propagates unchanged to the entry point, and no
/// partial result is returned.
#[derive(Debug, Clone, Copy, PartialEq, Eq, Structural)]
pub enum DecodeError {
    /// The input text is not well-formed JSON; carries the one-based line and
    /// column at which the underlying parser stopped.
    Syntax { line: u64, column: u64 },
    /// A positional array has the wrong arity, or one of its elements is not
    /// a non-negative integer representable in 64 bits.
    ShapeMismatch,
    /// A structured object is missing a required field.
    MissingField,
    /// A value has the wrong type for its place: a field of the wrong type,
    /// or a non-object or non-array where one was required.
    TypeMismatch,
    /// The kind tag of a region or branch is outside the known range; the
    /// offending raw value is preserved for diagnostics.
    UnknownRegionKind(u64),
}

} // verus!
