//! The errors of the header walker.

use crate::bytes::IncompleteData;
use vstd::prelude::*;

verus! {

/// The kind of error that occurred.
#[derive(Debug, Clone, Copy, PartialEq, Eq)]
#[non_exhaustive]
pub enum ErrorKind {
    /// The radiotap header has unsupported version.
    UnsupportedVersion(u8),
    /// The capture is shorter than the length that its header declares: the
    /// length declared, then the length of the capture.
    InvalidLength(usize, usize),
    /// Failed to parse the radiotap header: the capture ends before its
    /// version, length and presence words do.
    Header,
    /// Failed to skip a field: it runs past the end of the capture.
    Skip,
    /// Failed to read the named field: it runs past the end of the capture.
    Read(&'static str),
}

impl ErrorKind {
    /// Whether the error is that the capture ends before what is read from
    /// it does: every error is, but that of an unsupported version and that
    /// of a declared length beyond the capture.
    pub open spec fn incomplete_data(&self) -> bool {
        match self {
            ErrorKind::UnsupportedVersion(_) => false,
            ErrorKind::InvalidLength(_, _) => false,
            _ => true,
        }
    }

    /// Returns whether the error is that the capture ends before what is
    /// read from it does.
    pub fn is_incomplete_data(&self) -> (r: bool)
        ensures
            r == self.incomplete_data(),
    {
        match self {
            ErrorKind::UnsupportedVersion(_) => false,
            ErrorKind::InvalidLength(_, _) => false,
            _ => true,
        }
    }
}

/// An error that can occur in this crate.
#[derive(Debug, Clone, Copy, PartialEq, Eq)]
pub struct Error {
    kind: ErrorKind,
    source: Option<IncompleteData>,
}

impl Error {
    /// The kind of error.
    pub closed spec fn kind_spec(&self) -> ErrorKind {
        self.kind
    }

    /// The cursor's error that has caused this one, if one has.
    pub closed spec fn source_spec(&self) -> Option<IncompleteData> {
        self.source
    }

    /// Whether this is the error of the given kind, with the cause that goes
    /// with the kind.
    pub open spec fn is(&self, kind: ErrorKind) -> bool {
        &&& self.kind_spec() == kind
        &&& self.source_spec().is_some() == kind.incomplete_data()
    }

    /// Create a new `Error` that nothing else has caused.
    pub(crate) fn new(kind: ErrorKind) -> (r: Error)
        ensures
            r.kind_spec() == kind,
            r.source_spec().is_none(),
    {
        Error { kind, source: None }
    }

    /// Create a new `Error` that the cursor's error has caused.
    pub(crate) fn caused(kind: ErrorKind, source: IncompleteData) -> (r: Error)
        ensures
            r.kind_spec() == kind,
            r.source_spec() == Some(source),
    {
        Error { kind, source: Some(source) }
    }

    /// Returns the kind of error.
    pub fn kind(&self) -> (r: ErrorKind)
        ensures
            r == self.kind_spec(),
    {
        self.kind
    }

    /// Returns the cursor's error that has caused this one, if one has.
    pub fn source(&self) -> (r: Option<IncompleteData>)
        ensures
            r == self.source_spec(),
    {
        self.source
    }
}

} // verus!
