//! Identity of SST files and the metadata the layer keeps about them.

use vstd::prelude::*;

verus! {

/// Unique identifier of one SST within a region.
///
/// The id is minted by the caller before a write begins and is the sole
/// addressing key of the file: together with the region directory it
/// determines the data path and the index path.
#[derive(Clone, Copy, PartialEq, Eq, Structural, Hash, Debug)]
pub struct FileId {
    pub value: u64,
}

impl FileId {
    /// Returns the id with the given numeric value.
    pub fn new(value: u64) -> (r: FileId)
        ensures
            r.value == value,
    {
        FileId { value }
    }

    /// Returns the numeric value of the id.
    pub fn as_u64(&self) -> (r: u64)
        ensures
            r == self.value,
    {
        self.value
    }
}

/// Attributes of a persisted SST.
///
/// `inverted_index_available` is the only source of truth for whether an
/// index-delete attempt should occur when the file is removed.
#[derive(Clone, Copy, PartialEq, Eq, Structural, Debug)]
pub struct FileMeta {
    pub file_id: FileId,
    /// Whether an inverted index object exists for this file.
    pub inverted_index_available: bool,
}

/// A reference used to initiate reads of one SST.
///
/// It carries enough identity to resolve the data path of the file and,
/// indirectly, its metadata.
#[derive(Clone, Copy, PartialEq, Eq, Structural, Debug)]
pub struct FileHandle {
    pub meta: FileMeta,
}

impl FileHandle {
    /// Returns a handle for the file described by `meta`.
    pub fn new(meta: FileMeta) -> (r: FileHandle)
        ensures
            r.meta == meta,
    {
        FileHandle { meta }
    }

    /// Returns the id of the referenced file.
    pub fn file_id(&self) -> (r: FileId)
        ensures
            r == self.meta.file_id,
    {
        self.meta.file_id
    }
}

} // verus!
