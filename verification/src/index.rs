//! Coordination of inverted-index construction with a data write.
//!
//! The internal structure and build algorithm of the inverted index are an
//! external collaborator's concern.  What the layer decides, and what is
//! verified here, is whether an index object is produced at all and at which
//! address: the indexer created by the builder records the creation flag and
//! the destination path, and the data-file writer drives it.

use vstd::prelude::*;

use crate::file::FileId;
use crate::metadata::RegionMetadata;

verus! {

/// Manager of the intermediate files used while an index is built.
///
/// The layer only threads the manager through to index construction; the
/// model records the directory the intermediate files would live under.
#[derive(Clone, Debug)]
pub struct IntermediateManager {
    base_dir: String,
}

impl IntermediateManager {
    /// Returns a manager rooted at `base_dir`.
    pub fn new(base_dir: String) -> (r: IntermediateManager)
        ensures
            r.spec_base_dir() == base_dir@,
    {
        IntermediateManager { base_dir }
    }

    /// The directory the intermediate files live under.
    pub closed spec fn spec_base_dir(self) -> Seq<char> {
        self.base_dir@
    }

    /// Returns the directory the intermediate files live under.
    pub fn base_dir(&self) -> (r: &str)
        ensures
            r@ == self.spec_base_dir(),
    {
        self.base_dir.as_str()
    }
}

/// Configuration from which one indexer is built.
pub struct IndexerBuilder {
    /// Whether to create an inverted index at all.
    pub create_inverted_index: bool,
    /// Memory threshold that triggers index construction.
    pub mem_threshold_index_create: Option<usize>,
    /// Size of the write buffer used while building the index.
    pub write_buffer_size: Option<usize>,
    /// The file the index belongs to.
    pub file_id: FileId,
    /// Destination path of the index object.
    pub file_path: String,
    /// Metadata of the owning region.
    pub metadata: RegionMetadata,
    /// Row-group size of the data file being written alongside.
    pub row_group_size: usize,
    /// Manager of intermediate files used during construction.
    pub intermediate_manager: IntermediateManager,
}

impl IndexerBuilder {
    /// Builds the indexer: one that creates the index object at the
    /// configured path when creation is enabled, and a no-op one otherwise.
    pub fn build(self) -> (r: Indexer)
        ensures
            r.spec_create() == self.create_inverted_index,
            r.spec_file_path() == self.file_path@,
    {
        Indexer { create: self.create_inverted_index, file_path: self.file_path }
    }
}

/// The indexer driven by a data-file writer.
pub struct Indexer {
    /// Whether an index object is produced.
    pub create: bool,
    /// The address the index object is produced at.
    pub file_path: String,
}

impl Indexer {
    /// Whether an index object is produced.
    pub open spec fn spec_create(self) -> bool {
        self.create
    }

    /// The address the index object is produced at.
    pub open spec fn spec_file_path(self) -> Seq<char> {
        self.file_path@
    }
}

} // verus!
