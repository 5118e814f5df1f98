//! Error types.
//!
//! A malformed stream never crashes the process: every failure surfaces as
//! one typed, terminal error.  Decoding fails with a `DecodeError` naming
//! the reason, the tag and the byte offset; encoding fails with an
//! `EncodeError` naming the missing mandatory header field.

use vstd::prelude::*;

verus! {

/// Why a record or a stream failed to decode.
#[derive(Debug, Clone, Copy, PartialEq, Eq)]
pub enum DecodeErrorKind {
    /// The buffer ended before the declared record could be read whole.
    Truncated,
    /// The record's length field is below the 4-byte record header size.
    BadLength,
    /// The tag code is not in the record table.
    UnknownTag,
    /// A fixed-size payload held the wrong number of bytes.
    SizeMismatch { expected: usize, actual: usize },
    /// A point-list payload whose length is not a positive multiple of 8.
    BadPointListLength { actual: usize },
    /// A body-field record arrived while no element group was open.
    FieldOutsideGroup,
}

/// A decode failure: what went wrong, on which tag, at which byte offset.
///
/// `tag` is the wire tag of the offending record, or 0 when the buffer
/// ended before the tag itself could be read.
#[derive(Debug, Clone, Copy, PartialEq, Eq)]
pub struct DecodeError {
    pub kind: DecodeErrorKind,
    pub tag: u16,
    pub byte_offset: usize,
}

/// The canonical key of a library header record.
#[derive(Debug, Clone, Copy, PartialEq, Eq)]
pub enum HeaderKey {
    Version,
    BgnLib,
    LibName,
    RefLibs,
    Fonts,
    AttrTable,
    Generations,
    Format,
    Mask,
    EndMask,
    Units,
}

/// An encode failure: a mandatory header field is absent from the model.
#[derive(Debug, Clone, Copy, PartialEq, Eq)]
pub struct EncodeError {
    pub missing_field: HeaderKey,
}

/// The error of the library facade: either direction's failure.
#[derive(Debug, Clone, Copy, PartialEq, Eq)]
pub enum GDSIIErrorKind {
    /// The byte stream is not a well-formed GDSII stream.
    InvalidGDSII(DecodeError),
    /// The model lacks a mandatory header field and cannot be encoded.
    EncodeFailed(EncodeError),
}

} // verus!
