//! The engine's model of the storage backend: the error taxonomy its
//! operations can fail with and the metadata record the engine reads.
//! The backend itself (file I/O, listings) lives outside the engine;
//! only its outcomes flow through here.

use vstd::prelude::*;

verus! {

/// The failure categories a storage backend can report. Each maps to
/// one FTP reply code.
#[derive(Clone, Copy, PartialEq, Eq, Structural, Debug)]
pub enum ErrorKind {
    /// 450: requested file action not taken, file transiently unavailable.
    TransientFileNotAvailable,
    /// 550: requested action not taken, file permanently unavailable.
    PermanentFileNotAvailable,
    /// 550: requested action not taken, permission denied.
    PermissionDenied,
    /// 451: requested action aborted, local error in processing.
    LocalError,
    /// 551: requested action aborted, page type unknown.
    PageTypeUnknown,
    /// 452: requested action not taken, insufficient storage space.
    InsufficientStorageSpaceError,
    /// 552: requested file action aborted, exceeded storage allocation.
    ExceededStorageAllocationError,
    /// 553: requested action not taken, file name not allowed.
    FileNameNotAllowedError,
}

/// A storage-backend failure.
#[derive(Clone, Copy, PartialEq, Eq, Structural, Debug)]
pub struct Error {
    /// The failure's category.
    pub kind: ErrorKind,
}

impl Error {
    /// What the engine should do with the failure.
    pub fn kind(&self) -> (k: ErrorKind)
        ensures
            k == self.spec_kind(),
    {
        self.kind
    }

    /// The failure's category.
    pub open spec fn spec_kind(self) -> ErrorKind {
        self.kind
    }
}

impl From<ErrorKind> for Error {
    fn from(kind: ErrorKind) -> (e: Error)
        ensures
            e.spec_kind() == kind,
    {
        Error { kind }
    }
}

impl vstd::std_specs::convert::FromSpecImpl<ErrorKind> for Error {
    open spec fn obeys_from_spec() -> bool {
        true
    }

    open spec fn from_spec(kind: ErrorKind) -> Error {
        Error { kind }
    }
}

/// The metadata record the engine reads from a storage backend:
/// `SIZE`, `MDTM` and the directory check of `CWD` consume it.
#[derive(Clone, Copy, PartialEq, Eq, Structural, Debug)]
pub struct FileInfo {
    /// The object's size in bytes.
    pub size: u64,
    /// The object's modification time, in seconds since the Unix epoch.
    pub mtime_secs: u64,
    /// Whether the object is a directory.
    pub is_dir: bool,
    /// Whether the object is a regular file.
    pub is_file: bool,
}

} // verus!
