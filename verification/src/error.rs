//! Decode errors. Every failure is reported to the caller with the byte
//! offset (and, inside the segment walk, the segment kind and index) needed
//! to diagnose the malformed input; no error aborts the process.

use vstd::prelude::*;

verus! {

/// The five segment kinds of the format, in the fixed order in which their
/// segments follow the primary header in the file.
#[derive(Clone, Copy, Debug, PartialEq, Eq, Structural)]
pub enum SegmentKind {
    Image,
    Graphic,
    Text,
    DataExtension,
    ReservedExtension,
}

/// A decode failure. All variants are recoverable: the decoder returns them
/// to its caller and never panics on malformed input.
#[derive(Debug)]
pub enum NitfError {
    /// Fewer bytes were available than the declared field or segment width:
    /// a read of `requested` bytes started at `offset` in a source of
    /// `available` bytes.
    TruncatedRead { offset: u64, requested: u64, available: u64 },
    /// A count field's text does not parse as a non-negative integer.
    /// `offset` is the byte offset of the offending count field.
    InvalidCount { offset: u64 },
    /// A payload byte-range request lies outside the segment's data region.
    RangeOutOfBounds { start: u64, end: u64, data_size: u64 },
    /// A header's self-described size disagrees with the externally supplied
    /// size, both being known.
    StructuralMismatch { declared: u64, actual: u64, offset: u64 },
    /// A failure while reading segment `index` (zero-based, in file order) of
    /// the given kind.
    InSegment { kind: SegmentKind, index: u64, cause: Box<NitfError> },
}

} // verus!
