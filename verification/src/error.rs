//! The error values that every decode entry point can surface.
//!
//! Invalid data never panics: each partial operation reports its failure mode
//! as one of these kinds, together with the offset at which it arose within
//! the relevant slice.

use vstd::prelude::*;
use crate::kinds::{HeapKind, TableKind};

verus! {

/// A decode failure: the kind of fault, with the offset at which it arose.
#[derive(Debug, Copy, Clone, PartialEq, Eq)]
pub enum Error {
    /// A seek landed beyond the relevant slice; carries the requested position.
    OffsetOutOfBounds(usize),
    /// A sized read would pass the slice's end; carries the slice's length.
    UnexpectedEndOfStream(usize),
    /// A slice read required an alignment the input does not meet; carries the
    /// position of the read.
    UnalignedRead(usize),
    /// A validated field had an out-of-spec value, a UTF-8 decode failed, or a
    /// coded-index tag was out of range; carries the position at which the bad
    /// field starts and an optional label.
    InvalidData(usize, Option<&'static str>),
    /// The image does not contain the named stream.
    MissingHeap(HeapKind),
    /// The image does not contain the named table.
    MissingTable(TableKind),
    /// The decoder has no schema for the named table kind.
    Unsupported(TableKind),
}

} // verus!
