//! The failures that the editing operations report.

use vstd::prelude::*;

verus! {

/// Which hexadecimal input was malformed.
#[derive(PartialEq, Eq, Structural, Clone, Copy, Debug)]
pub enum HexField {
    Address,
    BitMask,
}

/// A failure of an editing operation.
#[derive(Debug)]
pub enum EditorError {
    /// The shared document could not be locked.
    LockUnavailable,
    /// No document has been loaded.
    NoDocumentLoaded,
    /// No record or module carries the given name.
    NotFound(String),
    /// The document has no module to import into.
    NoModules,
    /// A type name that maps onto no known type; holds the name as given.
    InvalidEnum(String),
    /// A malformed hexadecimal address or bit mask.
    InvalidHex(HexField),
    /// Reading or writing a file failed; holds the cause.
    Io(String),
    /// The document text could not be parsed; holds the cause.
    Parse(String),
}

} // verus!
