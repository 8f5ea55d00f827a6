//! The error taxonomy shared by the command bus, the backend owner and the
//! presentation-side views.

use vstd::prelude::*;

verus! {

/// Every way a fetch, commit, open, edit or save can fail.
///
/// The backend owner never crashes on a bad command: each handler failure is
/// turned into one of these and sent back as an error response. Presentation
/// side failures (`ExtractionError`, `UnsupportedType`) are surfaced to the
/// caller and never leave partially-applied state behind.
#[derive(Clone, Copy, Debug, PartialEq, Eq, Structural)]
pub enum ErrorKind {
    /// A fetch or commit named a path with no entry in the archive.
    NotFound,
    /// The stored payload could not be decoded for its registered type.
    DecodeError,
    /// The decoded file could not be encoded back into an entry payload,
    /// e.g. its tag does not match the entry's registered type.
    EncodeError,
    /// No concrete view or codec exists for the decoded file's tag.
    UnsupportedType,
    /// The live display surface could not be read back into a decoded file.
    ExtractionError,
    /// The backend owner is gone; the command was not delivered.
    BusClosed,
}

} // verus!
