use vstd::prelude::*;

verus! {

/// The kinds of I/O failure that the library tells apart.
#[derive(Clone, Copy, Debug, PartialEq, Eq, Structural)]
pub enum IoErrorKind {
    NotFound,
    PermissionDenied,
    Interrupted,
    WouldBlock,
    InvalidInput,
    InvalidData,
    UnexpectedEof,
    Other,
}

/// An I/O failure as the library sees it: its kind and a human readable
/// description.
#[derive(Clone, Debug)]
pub struct IoError {
    pub kind: IoErrorKind,
    pub message: String,
}

impl IoError {
    /// Builds an error of the given kind.
    pub fn new(kind: IoErrorKind, message: String) -> (e: IoError)
        ensures
            e.kind == kind,
            e.message@ == message@,
    {
        IoError { kind, message }
    }
}

} // verus!
