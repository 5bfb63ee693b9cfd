//! The cache manager consumed by the layer.
//!
//! Two capabilities are modelled: the presence check for an active write
//! cache, which selects the write path, and the metadata cache keyed by
//! (region id, file id), which a successful write seeds so that later
//! readers skip re-parsing the footer from the backend.

use vstd::prelude::*;

use crate::access_layer::SstWriteRequest;
use crate::error::Error;
use crate::file::FileId;
use crate::index::IndexerBuilder;
use crate::index::IntermediateManager;
use crate::parquet::sst_write_result;
use crate::parquet::write_effect;
use crate::parquet::ParquetMeta;
use crate::parquet::ParquetWriter;
use crate::parquet::SstInfo;
use crate::parquet::WriteOptions;
use crate::store::ObjectStore;

verus! {

/// The key of one metadata-cache entry.
#[derive(Clone, Copy, PartialEq, Eq, Structural, Debug)]
pub struct CacheKey {
    pub region_id: u64,
    pub file_id: FileId,
}

type CacheEntry = (CacheKey, ParquetMeta);

/// Whether entry `i` of `entries` is keyed by `k`.
pub open spec fn cache_entry_at(entries: Seq<CacheEntry>, k: CacheKey, i: int) -> bool {
    0 <= i < entries.len() && entries[i].0 == k
}

/// Whether some entry of `entries` is keyed by `k`.
pub open spec fn has_cache_entry(entries: Seq<CacheEntry>, k: CacheKey) -> bool {
    exists|i: int| cache_entry_at(entries, k, i)
}

/// The index of the entry keyed by `k`.
pub open spec fn cache_entry_index(entries: Seq<CacheEntry>, k: CacheKey) -> int {
    choose|i: int| cache_entry_at(entries, k, i)
}

/// The map from key to cached metadata that `entries` holds.
pub open spec fn cache_contents_of(entries: Seq<CacheEntry>) -> Map<CacheKey, ParquetMeta> {
    Map::new(
        |k: CacheKey| has_cache_entry(entries, k),
        |k: CacheKey| entries[cache_entry_index(entries, k)].1,
    )
}

/// Whether the keys of `entries` are pairwise distinct.
pub open spec fn unique_cache_keys(entries: Seq<CacheEntry>) -> bool {
    forall|i: int, j: int| 0 <= i < j < entries.len() ==> entries[i].0 != entries[j].0
}

/// With pairwise-distinct keys, the entry found at `i` is the one the
/// contents map binds to its key.
proof fn lemma_cache_key(entries: Seq<CacheEntry>, k: CacheKey, i: int)
    requires
        unique_cache_keys(entries),
        cache_entry_at(entries, k, i),
    ensures
        cache_contents_of(entries).contains_key(k),
        cache_contents_of(entries)[k] == entries[i].1,
{
    assert(has_cache_entry(entries, k));
    let w = cache_entry_index(entries, k);
    assert(cache_entry_at(entries, k, w));
    if w != i {
        assert(entries[i].0 == entries[w].0);
        assert(false);
    }
}

/// Replacing the metadata of entry `i` while keeping its key updates the
/// contents map at that key alone.
proof fn lemma_cache_update(entries: Seq<CacheEntry>, entries2: Seq<CacheEntry>, i: int)
    requires
        unique_cache_keys(entries),
        0 <= i < entries.len(),
        entries2.len() == entries.len(),
        entries2[i].0 == entries[i].0,
        forall|j: int| 0 <= j < entries.len() && j != i ==> entries2[j] == entries[j],
    ensures
        unique_cache_keys(entries2),
        cache_contents_of(entries2) == cache_contents_of(entries).insert(
            entries[i].0,
            entries2[i].1,
        ),
{
    assert(forall|j: int| 0 <= j < entries.len() ==> entries2[j].0 == entries[j].0);
    let m1 = cache_contents_of(entries2);
    let m2 = cache_contents_of(entries).insert(entries[i].0, entries2[i].1);
    assert forall|k: CacheKey| #[trigger] m1.contains_key(k) implies m2.contains_key(k) && m1[k]
        == m2[k] by {
        let w = choose|w: int| cache_entry_at(entries2, k, w);
        lemma_cache_key(entries2, k, w);
        if k == entries[i].0 {
            assert(w == i) by {
                if w != i {
                    assert(entries2[w].0 == entries2[i].0);
                    assert(false);
                }
            }
        } else {
            assert(w != i);
            assert(cache_entry_at(entries, k, w));
            lemma_cache_key(entries, k, w);
        }
    }
    assert forall|k: CacheKey| #[trigger] m2.contains_key(k) implies m1.contains_key(k) by {
        if k == entries[i].0 {
            assert(cache_entry_at(entries2, k, i));
        } else {
            let w = choose|w: int| cache_entry_at(entries, k, w);
            assert(cache_entry_at(entries2, k, w));
        }
    }
    assert(m1 =~= m2);
}

/// Appending an entry with a fresh key inserts its binding into the
/// contents map.
proof fn lemma_cache_push(entries: Seq<CacheEntry>, e: CacheEntry)
    requires
        unique_cache_keys(entries),
        !has_cache_entry(entries, e.0),
    ensures
        unique_cache_keys(entries.push(e)),
        cache_contents_of(entries.push(e)) == cache_contents_of(entries).insert(e.0, e.1),
{
    let entries2 = entries.push(e);
    assert forall|i: int, j: int| 0 <= i < j < entries2.len() implies entries2[i].0 != entries2[j].0
        by {
        if j < entries.len() {
            assert(entries2[i] == entries[i] && entries2[j] == entries[j]);
        } else {
            assert(entries2[j] == e);
            assert(entries2[i] == entries[i]);
            if entries[i].0 == e.0 {
                assert(cache_entry_at(entries, e.0, i));
                assert(false);
            }
        }
    }
    let m1 = cache_contents_of(entries2);
    let m2 = cache_contents_of(entries).insert(e.0, e.1);
    assert forall|k: CacheKey| #[trigger] m1.contains_key(k) implies m2.contains_key(k) && m1[k]
        == m2[k] by {
        let w = choose|w: int| cache_entry_at(entries2, k, w);
        lemma_cache_key(entries2, k, w);
        if w < entries.len() {
            assert(cache_entry_at(entries, k, w));
            lemma_cache_key(entries, k, w);
            assert(k != e.0);
        } else {
            assert(entries2[w] == e);
        }
    }
    assert forall|k: CacheKey| #[trigger] m2.contains_key(k) implies m1.contains_key(k) by {
        if k == e.0 {
            assert(cache_entry_at(entries2, k, entries.len() as int));
        } else {
            let w = choose|w: int| cache_entry_at(entries, k, w);
            assert(cache_entry_at(entries2, k, w));
        }
    }
    assert(m1 =~= m2);
}

/// The metadata cache after a write of `batches` for (region id, file id):
/// when the write succeeds with footer metadata, that footer is bound to the
/// key; otherwise the cache is untouched.
pub open spec fn cache_effect(
    c: Map<CacheKey, ParquetMeta>,
    region_id: u64,
    file_id: FileId,
    batches: Seq<u64>,
) -> Map<CacheKey, ParquetMeta> {
    match sst_write_result(batches) {
        Some(info) => match info.file_metadata {
            Some(meta) => c.insert(CacheKey { region_id, file_id }, meta),
            None => c,
        },
        None => c,
    }
}

/// Destination of a cache-mediated write: the final addresses both objects
/// must be published at.  The remote store itself is handed to the call.
pub struct SstUploadRequest {
    /// Final address of the data object.
    pub upload_path: String,
    /// Final address of the index object.
    pub index_upload_path: String,
}

/// A local staging tier that durably buffers a file before uploading it to
/// the remote backend.
///
/// Staging internals are an external collaborator's concern; what the model
/// keeps is the capability: a cache-mediated write publishes exactly the
/// same objects at the same final addresses, and returns the same result, as
/// the direct path.
pub struct WriteCache {
    file_cache_dir: String,
    intermediate_manager: IntermediateManager,
}

impl WriteCache {
    /// Returns a write cache staging under `file_cache_dir`.
    pub fn new(file_cache_dir: String, intermediate_manager: IntermediateManager) -> (r: WriteCache)
        ensures
            r.spec_file_cache_dir() == file_cache_dir@,
    {
        WriteCache { file_cache_dir, intermediate_manager }
    }

    /// The directory the staged files live under.
    pub closed spec fn spec_file_cache_dir(self) -> Seq<char> {
        self.file_cache_dir@
    }

    /// Stages the write locally, encodes data and (when enabled) index, and
    /// uploads both to their final addresses in the remote store.  The
    /// result has the same shape as the direct path's: the empty result if
    /// and only if the source yields zero rows.
    pub fn write_and_upload_sst(
        &self,
        request: SstWriteRequest,
        upload_request: SstUploadRequest,
        write_opts: &WriteOptions,
        remote_store: &mut ObjectStore,
    ) -> (r: Result<Option<SstInfo>, Error>)
        requires
            old(remote_store).wf(),
            request.source.wf(),
        ensures
            final(remote_store).wf(),
            final(remote_store)@ == write_effect(
                old(remote_store)@,
                upload_request.upload_path@,
                upload_request.index_upload_path@,
                request.create_inverted_index,
                request.source.batches(),
            ),
            r == Ok::<Option<SstInfo>, Error>(sst_write_result(request.source.batches())),
    {
        let indexer = IndexerBuilder {
            create_inverted_index: request.create_inverted_index,
            mem_threshold_index_create: request.mem_threshold_index_create,
            write_buffer_size: request.index_write_buffer_size,
            file_id: request.file_id,
            file_path: upload_request.index_upload_path,
            metadata: request.metadata,
            row_group_size: write_opts.row_group_size,
            intermediate_manager: self.intermediate_manager.clone(),
        }.build();
        let writer = ParquetWriter::new(upload_request.upload_path, request.metadata, indexer);
        writer.write_all(remote_store, request.source, write_opts)
    }
}

/// Manager of the caches the layer consults: the optional write cache and
/// the metadata cache.
pub struct CacheManager {
    write_cache: Option<WriteCache>,
    parquet_meta: Vec<CacheEntry>,
}

impl CacheManager {
    /// Whether the keys of the metadata cache are pairwise distinct.
    pub closed spec fn wf(self) -> bool {
        unique_cache_keys(self.parquet_meta@)
    }

    /// The metadata cache as a map.
    pub closed spec fn meta_map(self) -> Map<CacheKey, ParquetMeta> {
        cache_contents_of(self.parquet_meta@)
    }

    /// The currently configured write cache.
    pub closed spec fn spec_write_cache(self) -> Option<WriteCache> {
        self.write_cache
    }

    /// Returns a manager with the given write cache and an empty metadata
    /// cache.
    pub fn new(write_cache: Option<WriteCache>) -> (r: CacheManager)
        ensures
            r.wf(),
            r.spec_write_cache() == write_cache,
            r.meta_map() == Map::<CacheKey, ParquetMeta>::empty(),
    {
        let r = CacheManager { write_cache, parquet_meta: Vec::new() };
        proof {
            assert(r.meta_map() =~= Map::<CacheKey, ParquetMeta>::empty());
        }
        r
    }

    /// Returns the active write cache, if one is configured.
    pub fn write_cache(&self) -> (r: Option<&WriteCache>)
        ensures
            match r {
                Some(wc) => self.spec_write_cache() == Some(*wc),
                None => self.spec_write_cache() is None,
            },
    {
        match &self.write_cache {
            Some(wc) => Some(wc),
            None => None,
        }
    }

    fn find_index(&self, key: CacheKey) -> (r: Option<usize>)
        ensures
            match r {
                Some(i) => cache_entry_at(self.parquet_meta@, key, i as int),
                None => !has_cache_entry(self.parquet_meta@, key),
            },
    {
        let mut i: usize = 0;
        while i < self.parquet_meta.len()
            invariant
                i <= self.parquet_meta@.len(),
                forall|j: int| 0 <= j < i ==> self.parquet_meta@[j].0 != key,
            decreases self.parquet_meta@.len() - i,
        {
            let k = self.parquet_meta[i].0;
            if k.region_id == key.region_id && k.file_id == key.file_id {
                return Some(i);
            }
            i += 1;
        }
        proof {
            if has_cache_entry(self.parquet_meta@, key) {
                let w = choose|w: int| cache_entry_at(self.parquet_meta@, key, w);
                assert(self.parquet_meta@[w].0 != key);
            }
        }
        None
    }

    /// Seeds the metadata cache: binds (region id, file id) to the footer
    /// metadata of a confirmed successful write.
    pub fn put_parquet_meta_data(
        &mut self,
        region_id: u64,
        file_id: FileId,
        metadata: ParquetMeta,
    )
        requires
            old(self).wf(),
        ensures
            final(self).wf(),
            final(self).meta_map() == old(self).meta_map().insert(
                CacheKey { region_id, file_id },
                metadata,
            ),
            final(self).spec_write_cache() == old(self).spec_write_cache(),
    {
        let key = CacheKey { region_id, file_id };
        let ghost pre = self.parquet_meta@;
        match self.find_index(key) {
            Some(i) => {
                let entry = vstd::std_specs::vec::vec_index_mut(&mut self.parquet_meta, i);
                entry.1 = metadata;
                proof {
                    lemma_cache_update(pre, self.parquet_meta@, i as int);
                }
            },
            None => {
                self.parquet_meta.push((key, metadata));
                proof {
                    lemma_cache_push(pre, (key, metadata));
                    assert(self.parquet_meta@ =~= pre.push((key, metadata)));
                }
            },
        }
    }

    /// Looks up the cached footer metadata of (region id, file id).
    pub fn get_parquet_meta_data(&self, region_id: u64, file_id: FileId) -> (r: Option<ParquetMeta>)
        requires
            self.wf(),
        ensures
            ({
                let key = CacheKey { region_id, file_id };
                match r {
                    Some(m) => self.meta_map().contains_key(key) && self.meta_map()[key] == m,
                    None => !self.meta_map().contains_key(key),
                }
            }),
    {
        let key = CacheKey { region_id, file_id };
        match self.find_index(key) {
            Some(i) => {
                proof {
                    lemma_cache_key(self.parquet_meta@, key, i as int);
                }
                Some(self.parquet_meta[i].1)
            },
            None => None,
        }
    }
}

} // verus!
