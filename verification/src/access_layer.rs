//! The access layer: read, write, delete and existence checks for one
//! region's SST files, and the bootstrap of a local backend.
//!
//! The layer is a stateless coordinator over its construction-time handles:
//! the region directory, the object store and the intermediate-storage
//! manager.  A write selects, per call, between the direct path and the
//! cache-mediated path by asking the cache manager whether an active write
//! cache is available; both paths publish the same objects at the same
//! addresses and return the same result shape, and a confirmed success
//! seeds the metadata cache.

use vstd::prelude::*;

use crate::cache::cache_effect;
use crate::cache::CacheManager;
use crate::cache::SstUploadRequest;
use crate::error::Error;
use crate::error::StoreErrorKind;
use crate::file::FileHandle;
use crate::file::FileId;
use crate::file::FileMeta;
use crate::index::IndexerBuilder;
use crate::index::IntermediateManager;
use crate::location::index_file_path;
use crate::location::index_file_path_spec;
use crate::location::join_path;
use crate::location::join_path_spec;
use crate::location::lemma_data_index_paths_distinct;
use crate::location::sst_file_path;
use crate::location::sst_file_path_spec;
use crate::metadata::RegionMetadata;
use crate::parquet::sst_write_result;
use crate::parquet::write_effect;
use crate::parquet::ParquetReaderBuilder;
use crate::parquet::ParquetWriter;
use crate::parquet::SstInfo;
use crate::parquet::WriteOptions;
use crate::read::Source;
use crate::store::remove_prefixed;
use crate::store::ObjectStore;

verus! {

/// Contents of one SST write job.
///
/// The original job also carries a handle to the cache manager; mutable
/// access to the cache is passed to [`AccessLayer::write_sst`] alongside the
/// request instead, so that the seeding of the metadata cache is visible in
/// the contract.
pub struct SstWriteRequest {
    /// The file to create.
    pub file_id: FileId,
    /// Metadata of the owning region.
    pub metadata: RegionMetadata,
    /// The row source to consume.
    pub source: Source,
    /// Reserved storage-tier hint; threaded through and never consumed.
    pub storage: Option<String>,
    /// Whether to create an inverted index.
    pub create_inverted_index: bool,
    /// The threshold of memory size that triggers index construction.
    pub mem_threshold_index_create: Option<usize>,
    /// The size of the write buffer used for the index.
    pub index_write_buffer_size: Option<usize>,
}

/// A layer to access SST files under the same directory.
#[derive(Debug)]
pub struct AccessLayer {
    region_dir: String,
    /// Target object store.
    object_store: ObjectStore,
    /// Intermediate manager for inverted index.
    intermediate_manager: IntermediateManager,
}

impl AccessLayer {
    /// The directory of the region.
    pub closed spec fn spec_region_dir(self) -> Seq<char> {
        self.region_dir@
    }

    /// The contents of the target object store.
    pub closed spec fn contents(self) -> Map<Seq<char>, Seq<u8>> {
        self.object_store@
    }

    /// The intermediate-storage manager.
    pub closed spec fn spec_intermediate_manager(self) -> IntermediateManager {
        self.intermediate_manager
    }

    /// Whether the held object store is well formed.
    pub closed spec fn wf(self) -> bool {
        self.object_store.wf()
    }

    /// Returns a new layer for the specific `region_dir`.
    pub fn new(
        region_dir: String,
        object_store: ObjectStore,
        intermediate_manager: IntermediateManager,
    ) -> (r: AccessLayer)
        requires
            object_store.wf(),
        ensures
            r.wf(),
            r.spec_region_dir() == region_dir@,
            r.contents() == object_store@,
            r.spec_intermediate_manager() == intermediate_manager,
    {
        AccessLayer { region_dir, object_store, intermediate_manager }
    }

    /// Returns the directory of the region.
    pub fn region_dir(&self) -> (r: &str)
        ensures
            r@ == self.spec_region_dir(),
    {
        self.region_dir.as_str()
    }

    /// Returns the object store of the layer.
    pub fn object_store(&self) -> (r: &ObjectStore)
        ensures
            r@ == self.contents(),
            self.wf() ==> r.wf(),
    {
        &self.object_store
    }

    /// Deletes an SST file, and its index file if its metadata says one
    /// exists.  The data deletion is attempted first; if it fails, the index
    /// deletion is never attempted and the failure is surfaced tagged with
    /// the file id as a primary-delete error.  If the data deletion succeeds
    /// and the index deletion fails, an index-delete error is surfaced and a
    /// dangling index object remains: a known, accepted inconsistency.
    pub fn delete_sst(&mut self, file_meta: &FileMeta) -> (r: Result<(), Error>)
        requires
            old(self).wf(),
        ensures
            final(self).wf(),
            final(self).spec_region_dir() == old(self).spec_region_dir(),
            final(self).spec_intermediate_manager() == old(self).spec_intermediate_manager(),
            ({
                let dp = sst_file_path_spec(old(self).spec_region_dir(), file_meta.file_id);
                let ip = index_file_path_spec(old(self).spec_region_dir(), file_meta.file_id);
                match r {
                    Ok(()) => old(self).contents().contains_key(dp) && (
                    file_meta.inverted_index_available ==> old(self).contents().contains_key(ip))
                        && final(self).contents() == (if file_meta.inverted_index_available {
                        old(self).contents().remove(dp).remove(ip)
                    } else {
                        old(self).contents().remove(dp)
                    }),
                    Err(e) => match e {
                        Error::DeleteSst { file_id, kind } => file_id == file_meta.file_id && kind
                            == StoreErrorKind::NotFound && !old(self).contents().contains_key(dp)
                            && final(self).contents() == old(self).contents(),
                        Error::DeleteIndex { file_id, kind } => file_id == file_meta.file_id
                            && kind == StoreErrorKind::NotFound
                            && file_meta.inverted_index_available && old(
                            self,
                        ).contents().contains_key(dp) && !old(self).contents().contains_key(ip)
                            && final(self).contents() == old(self).contents().remove(dp),
                    },
                }
            }),
    {
        let path = sst_file_path(self.region_dir.as_str(), file_meta.file_id);
        match self.object_store.delete(&path) {
            Err(kind) => {
                return Err(Error::DeleteSst { file_id: file_meta.file_id, kind });
            },
            Ok(()) => {},
        }
        if file_meta.inverted_index_available {
            let index_path = index_file_path(self.region_dir.as_str(), file_meta.file_id);
            proof {
                lemma_data_index_paths_distinct(
                    old(self).spec_region_dir(),
                    file_meta.file_id,
                    file_meta.file_id,
                );
            }
            match self.object_store.delete(&index_path) {
                Err(kind) => {
                    return Err(Error::DeleteIndex { file_id: file_meta.file_id, kind });
                },
                Ok(()) => {},
            }
        }
        Ok(())
    }

    /// Returns a reader builder for the specific `file`.  No access to the
    /// backend happens here; the builder only binds the file's identity.
    pub fn read_sst(&self, file: FileHandle) -> (r: ParquetReaderBuilder)
        ensures
            r.spec_region_dir() == self.spec_region_dir(),
            r.spec_file() == file,
    {
        ParquetReaderBuilder::new(self.region_dir.clone(), file)
    }

    /// Writes an SST with the request's file id to the layer.
    ///
    /// If the cache manager has an active write cache the whole write is
    /// delegated to the cache-mediated path, with the final destination
    /// addresses of both objects; otherwise an indexer is built and a
    /// data-file writer consumes the source directly.  Both paths create the
    /// same objects and return the same result: the empty result if and only
    /// if the source yields zero rows.  After a confirmed success that
    /// carries footer metadata, the metadata cache is seeded under
    /// (region id, file id).
    pub fn write_sst(
        &mut self,
        request: SstWriteRequest,
        write_opts: &WriteOptions,
        cache_manager: &mut CacheManager,
    ) -> (r: Result<Option<SstInfo>, Error>)
        requires
            old(self).wf(),
            old(cache_manager).wf(),
            request.source.wf(),
        ensures
            final(self).wf(),
            final(cache_manager).wf(),
            final(self).spec_region_dir() == old(self).spec_region_dir(),
            final(self).spec_intermediate_manager() == old(self).spec_intermediate_manager(),
            final(self).contents() == write_effect(
                old(self).contents(),
                sst_file_path_spec(old(self).spec_region_dir(), request.file_id),
                index_file_path_spec(old(self).spec_region_dir(), request.file_id),
                request.create_inverted_index,
                request.source.batches(),
            ),
            final(cache_manager).meta_map() == cache_effect(
                old(cache_manager).meta_map(),
                request.metadata.region_id,
                request.file_id,
                request.source.batches(),
            ),
            final(cache_manager).spec_write_cache() == old(cache_manager).spec_write_cache(),
            r == Ok::<Option<SstInfo>, Error>(sst_write_result(request.source.batches())),
    {
        let file_path = sst_file_path(self.region_dir.as_str(), request.file_id);
        let index_path = index_file_path(self.region_dir.as_str(), request.file_id);
        let region_id = request.metadata.region_id;
        let file_id = request.file_id;

        let sst_info = match cache_manager.write_cache() {
            Some(write_cache) => {
                // Write to the write cache.
                let res = write_cache.write_and_upload_sst(
                    request,
                    SstUploadRequest { upload_path: file_path, index_upload_path: index_path },
                    write_opts,
                    &mut self.object_store,
                );
                match res {
                    Ok(v) => v,
                    Err(e) => {
                        return Err(e);
                    },
                }
            },
            None => {
                // Write cache is disabled.
                let indexer = IndexerBuilder {
                    create_inverted_index: request.create_inverted_index,
                    mem_threshold_index_create: request.mem_threshold_index_create,
                    write_buffer_size: request.index_write_buffer_size,
                    file_id,
                    file_path: index_path,
                    metadata: request.metadata,
                    row_group_size: write_opts.row_group_size,
                    intermediate_manager: self.intermediate_manager.clone(),
                }.build();
                let writer = ParquetWriter::new(file_path, request.metadata, indexer);
                match writer.write_all(&mut self.object_store, request.source, write_opts) {
                    Ok(v) => v,
                    Err(e) => {
                        return Err(e);
                    },
                }
            },
        };

        // Put parquet metadata to the cache manager, only after confirmed
        // success.
        if let Some(info) = &sst_info {
            if let Some(parquet_metadata) = &info.file_metadata {
                cache_manager.put_parquet_meta_data(region_id, file_id, *parquet_metadata);
            }
        }

        Ok(sst_info)
    }

    /// Returns whether the data file (only — index existence is not
    /// checked) is present in the backend.
    pub fn is_exist(&self, file_meta: &FileMeta) -> (r: Result<bool, Error>)
        ensures
            r == Ok::<bool, Error>(
                self.contents().contains_key(
                    sst_file_path_spec(self.spec_region_dir(), file_meta.file_id),
                ),
            ),
    {
        let path = sst_file_path(self.region_dir.as_str(), file_meta.file_id);
        Ok(self.object_store.is_exist(&path))
    }
}

/// The address of the atomic-write staging area of a backend rooted at
/// `root`.
pub open spec fn atomic_write_dir_spec(root: Seq<char>) -> Seq<char> {
    join_path_spec(root, ".tmp/"@)
}

/// Bootstraps a filesystem-backed object store rooted at `root` over the
/// objects found there, `prior`.  The atomic-write staging area is
/// unconditionally cleaned before the store is exposed: files left mid-stage
/// by a previous run are unverifiable and must never be observed as
/// complete.
pub fn new_fs_object_store(root: &str, prior: ObjectStore) -> (r: Result<ObjectStore, Error>)
    requires
        prior.wf(),
    ensures
        r matches Ok(store) && store.wf() && store@ == remove_prefixed(
            prior@,
            atomic_write_dir_spec(root@),
        ),
{
    let atomic_write_dir = join_path(root, ".tmp/");
    let mut object_store = prior;
    match clean_dir(&mut object_store, &atomic_write_dir) {
        Ok(()) => {},
        Err(e) => {
            return Err(e);
        },
    }
    Ok(object_store)
}

/// Cleans the directory: removes every object under `dir`.
fn clean_dir(store: &mut ObjectStore, dir: &String) -> (r: Result<(), Error>)
    requires
        old(store).wf(),
    ensures
        r is Ok,
        final(store).wf(),
        final(store)@ == remove_prefixed(old(store)@, dir@),
{
    store.remove_prefix(dir);
    Ok(())
}

} // verus!
