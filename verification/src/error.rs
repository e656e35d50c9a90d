//! The single failure value that loading and compiling hand back.

use vstd::prelude::*;

verus! {

/// Why the operating system refused an access, as far as callers tell the cases apart.
#[derive(Clone, Copy, Debug, PartialEq, Eq, Structural)]
pub enum IoKind {
    /// Nothing exists at the location.
    NotFound,
    /// The location exists and may not be read.
    PermissionDenied,
    /// The location names a directory, not a file.
    IsADirectory,
    /// The location is not one the system can interpret.
    InvalidInput,
    /// Any other failure.
    Other,
}

/// A failed access to a resource: its kind, and the system's own words for it.
#[derive(Clone, Debug, PartialEq, Eq)]
pub struct IoFailure {
    pub kind: IoKind,
    pub message: String,
}

/// What a compiler reports when a template's source cannot be parsed.
#[derive(Clone, Debug, PartialEq, Eq)]
pub struct ParseError {
    pub message: String,
}

/// Everything that can go wrong between a name and a compiled template.
#[derive(Clone, Debug, PartialEq, Eq)]
pub enum Error {
    /// The resource exists, or may exist, and could not be read.
    Io(IoFailure),
    /// The resource was read and its bytes are not UTF-8 text.
    InvalidText,
    /// A name or a configured suffix that cannot form a location.
    InvalidStr,
    /// The compiler rejected the source.
    Parser(ParseError),
}

} // verus!
