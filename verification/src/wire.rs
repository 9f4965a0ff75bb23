//! Plain-value models of the engine's native wire representations.
//!
//! A native callback hands the bridge non-owning pointers that are valid
//! only for the duration of the callback.  The unverified boundary deep
//! copies the raw buffers into these types before the call frame is
//! invalidated; the verified conversion layer (`convert`) then decodes
//! them into the owned data model.
//!
//! Native strings come in two incompatible shapes, and each field commits
//! to exactly one of them — mixing the two corrupts data:
//!
//! | field                       | convention                          |
//! |-----------------------------|-------------------------------------|
//! | `WireUri::bytes`            | nul-terminated (scan, then decode)  |
//! | `WireLiteral::string`       | explicit length (decode exactly)    |
//! | `WireLiteral::language`     | explicit length (decode exactly)    |
//! | `WireTerm::Blank` label     | explicit length (decode exactly)    |
//! | `WireLogMessage::text`      | nul-terminated (scan, then decode)  |
//! | `WireLocator::file`         | nul-terminated (scan, then decode)  |
//!
//! A nul-terminated buffer holds the bytes of the value followed by its
//! terminator (the terminator is part of the buffer); an explicit-length
//! buffer holds exactly the bytes of the value.

use vstd::prelude::*;

verus! {

/// A native URI, rendered to its nul-terminated byte buffer.
#[derive(Clone, Debug)]
pub struct WireUri {
    pub bytes: Vec<u8>,
}

/// The native representation of a literal: an explicit-length value
/// buffer, an optional datatype URI and an optional explicit-length
/// language tag.  An absent field stands for a null pointer.
#[derive(Clone, Debug)]
pub struct WireLiteral {
    pub string: Vec<u8>,
    pub datatype: Option<WireUri>,
    pub language: Option<Vec<u8>>,
}

/// The native term: a tag and, per tag, its payload.  `Unknown` is the
/// engine's fourth tag (also standing for any unrecognized tag value);
/// converting it is a failure, never a silent default.
#[derive(Clone, Debug)]
pub enum WireTerm {
    Unknown,
    Uri(WireUri),
    Literal(WireLiteral),
    Blank(Vec<u8>),
}

/// The native statement: three terms and an optional graph term (a null
/// pointer when the engine is not in a named-graph mode).
#[derive(Clone, Debug)]
pub struct WireStatement {
    pub subject: WireTerm,
    pub predicate: WireTerm,
    pub object: WireTerm,
    pub graph: Option<WireTerm>,
}

/// The native log message: a nul-terminated text buffer and the raw
/// integer log level.
#[derive(Clone, Debug)]
pub struct WireLogMessage {
    pub text: Vec<u8>,
    pub level: i32,
}

/// The native locator attached to a diagnostic.  Null pointers become
/// `None`; the integer fields use a negative number as the engine's
/// "unknown" sentinel.
#[derive(Clone, Debug)]
pub struct WireLocator {
    pub uri: Option<WireUri>,
    pub file: Option<Vec<u8>>,
    pub line: i32,
    pub column: i32,
    pub byte: i32,
}

} // verus!
