//! Region metadata as far as the layer reads it.
//!
//! The full schema of a region is an external collaborator's concern; the
//! access layer only reads the region identifier, used to key the metadata
//! cache.

use vstd::prelude::*;

verus! {

/// Metadata of the region that owns the files being written.
#[derive(Clone, Copy, PartialEq, Eq, Structural, Debug)]
pub struct RegionMetadata {
    /// Identifier of the region.
    pub region_id: u64,
}

impl RegionMetadata {
    /// Returns metadata for the region with the given identifier.
    pub fn new(region_id: u64) -> (r: RegionMetadata)
        ensures
            r.region_id == region_id,
    {
        RegionMetadata { region_id }
    }
}

} // verus!
