//! Error taxonomy of the layer.
//!
//! Every failure is surfaced to the caller carrying the file id needed for
//! diagnosis and caller-driven retry; nothing is retried internally.

use vstd::prelude::*;

use crate::file::FileId;

verus! {

/// Classification of a backend failure.
#[derive(Clone, Copy, PartialEq, Eq, Structural, Debug)]
pub enum StoreErrorKind {
    /// The addressed object does not exist.
    NotFound,
}

/// A failure of one operation of the access layer.
#[derive(Clone, Copy, PartialEq, Eq, Structural, Debug)]
pub enum Error {
    /// The primary deletion, of the data object, failed; the index deletion
    /// was never attempted.
    DeleteSst { file_id: FileId, kind: StoreErrorKind },
    /// The data object was deleted but the index deletion failed, leaving a
    /// dangling index object: accepted debris for downstream sweeps, not
    /// corruption.
    DeleteIndex { file_id: FileId, kind: StoreErrorKind },
}

impl Error {
    /// The classification of the underlying backend failure.
    pub open spec fn spec_kind(self) -> StoreErrorKind {
        match self {
            Error::DeleteSst { kind, .. } => kind,
            Error::DeleteIndex { kind, .. } => kind,
        }
    }

    /// The id of the file whose operation failed.
    pub open spec fn spec_file_id(self) -> FileId {
        match self {
            Error::DeleteSst { file_id, .. } => file_id,
            Error::DeleteIndex { file_id, .. } => file_id,
        }
    }

    /// Whether the failure is classified as "object not found".
    pub fn is_not_found(&self) -> (r: bool)
        ensures
            r == (self.spec_kind() == StoreErrorKind::NotFound),
    {
        match self {
            Error::DeleteSst { kind: StoreErrorKind::NotFound, .. } => true,
            Error::DeleteIndex { kind: StoreErrorKind::NotFound, .. } => true,
        }
    }

    /// The id of the file whose operation failed.
    pub fn file_id(&self) -> (r: FileId)
        ensures
            r == self.spec_file_id(),
    {
        match self {
            Error::DeleteSst { file_id, .. } => *file_id,
            Error::DeleteIndex { file_id, .. } => *file_id,
        }
    }
}

} // verus!
