//! The data-file writer, its options and statistics, and the reader builder.
//!
//! The binary layout of the data file is an external collaborator's concern;
//! the model encodes, per batch, the one attribute the layer's contracts
//! speak of — its row count — and the index object as a digest of the same
//! source.  What is verified is the shape of the write: which objects appear
//! at which addresses, the statistics reported, and that an empty source
//! creates nothing.

use vstd::bytes::spec_u64_to_le_bytes;
use vstd::bytes::u64_to_le_bytes;
use vstd::prelude::*;

use crate::error::Error;
use crate::file::FileHandle;
use crate::index::Indexer;
use crate::location::sst_file_path;
use crate::location::sst_file_path_spec;
use crate::metadata::RegionMetadata;
use crate::read::total_rows_of;
use crate::read::Source;
use crate::store::ObjectStore;

verus! {

/// Default number of rows in one row group of a data file.
pub const DEFAULT_ROW_GROUP_SIZE: usize = 102400;

/// Options of one SST write.
#[derive(Clone, Copy, PartialEq, Eq, Structural, Debug)]
pub struct WriteOptions {
    /// Buffer size for writing the data file.
    pub write_buffer_size: usize,
    /// Number of rows in one row group.
    pub row_group_size: usize,
}

impl Default for WriteOptions {
    /// Returns the default options.
    fn default() -> (r: WriteOptions)
        ensures
            r.write_buffer_size == 8 * 1024 * 1024,
            r.row_group_size == DEFAULT_ROW_GROUP_SIZE,
    {
        WriteOptions { write_buffer_size: 8 * 1024 * 1024, row_group_size: DEFAULT_ROW_GROUP_SIZE }
    }
}

/// The footer metadata of a persisted data file, suitable for caching.
#[derive(Clone, Copy, PartialEq, Eq, Structural, Debug)]
pub struct ParquetMeta {
    /// Number of rows in the file.
    pub num_rows: u64,
    /// Size of the file in bytes.
    pub file_size: u64,
}

/// The outcome of a successful write: statistics and, optionally, the
/// encoded footer metadata.
#[derive(Clone, Copy, PartialEq, Debug)]
pub struct SstInfo {
    /// Size of the data file in bytes.
    pub file_size: u64,
    /// Number of rows written.
    pub num_rows: u64,
    /// Footer metadata of the data file.
    pub file_metadata: Option<ParquetMeta>,
}

/// The bytes of the data object written for `batches`.
pub open spec fn spec_encode_data(batches: Seq<u64>) -> Seq<u8>
    decreases batches.len(),
{
    if batches.len() == 0 {
        Seq::empty()
    } else {
        spec_encode_data(batches.drop_last()) + spec_u64_to_le_bytes(batches.last())
    }
}

/// The bytes of the index object written for `batches`.
pub open spec fn spec_encode_index(batches: Seq<u64>) -> Seq<u8> {
    spec_u64_to_le_bytes(total_rows_of(batches) as u64)
}

/// The footer of the data file written for `batches`.
pub open spec fn spec_footer(batches: Seq<u64>) -> ParquetMeta {
    ParquetMeta {
        num_rows: total_rows_of(batches) as u64,
        file_size: spec_encode_data(batches).len() as u64,
    }
}

/// What a write of `batches` returns: the empty result if and only if the
/// source yields zero rows, and otherwise the statistics of the written
/// data file, footer included.
pub open spec fn sst_write_result(batches: Seq<u64>) -> Option<SstInfo> {
    if total_rows_of(batches) == 0 {
        None
    } else {
        Some(
            SstInfo {
                file_size: spec_encode_data(batches).len() as u64,
                num_rows: total_rows_of(batches) as u64,
                file_metadata: Some(spec_footer(batches)),
            },
        )
    }
}

/// The store contents after a write of `batches` destined for `data_path`
/// and, when index creation is enabled, `index_path`.  An empty source
/// creates no object at all.
pub open spec fn write_effect(
    m: Map<Seq<char>, Seq<u8>>,
    data_path: Seq<char>,
    index_path: Seq<char>,
    create_index: bool,
    batches: Seq<u64>,
) -> Map<Seq<char>, Seq<u8>> {
    if total_rows_of(batches) == 0 {
        m
    } else if create_index {
        m.insert(data_path, spec_encode_data(batches)).insert(index_path, spec_encode_index(batches))
    } else {
        m.insert(data_path, spec_encode_data(batches))
    }
}

fn encode_data(source: &Source) -> (r: Vec<u8>)
    ensures
        r@ == spec_encode_data(source.batches()),
{
    let ghost all = source.batches();
    let mut out: Vec<u8> = Vec::new();
    let mut i: usize = 0;
    proof {
        assert(all.subrange(0, 0) =~= Seq::<u64>::empty());
    }
    while i < source.batch_count()
        invariant
            i <= all.len(),
            all == source.batches(),
            out@ == spec_encode_data(all.subrange(0, i as int)),
        decreases all.len() - i,
    {
        let mut b = u64_to_le_bytes(source.batch(i));
        out.append(&mut b);
        proof {
            assert(all.subrange(0, i + 1).drop_last() =~= all.subrange(0, i as int));
            assert(all.subrange(0, i + 1).last() == all[i as int]);
        }
        i += 1;
    }
    proof {
        assert(all.subrange(0, all.len() as int) =~= all);
    }
    out
}

fn encode_index(source: &Source) -> (r: Vec<u8>)
    requires
        source.wf(),
    ensures
        r@ == spec_encode_index(source.batches()),
{
    u64_to_le_bytes(source.row_count())
}

/// Writer of one SST data file, driving the indexer as it consumes the
/// source.
pub struct ParquetWriter {
    file_path: String,
    metadata: RegionMetadata,
    indexer: Indexer,
}

impl ParquetWriter {
    /// Destination path of the data object.
    pub closed spec fn spec_file_path(self) -> Seq<char> {
        self.file_path@
    }

    /// The indexer driven alongside the data write.
    pub closed spec fn spec_indexer(self) -> Indexer {
        self.indexer
    }

    /// Returns a writer bound to the destination data path, the region
    /// metadata and the indexer.
    pub fn new(file_path: String, metadata: RegionMetadata, indexer: Indexer) -> (r: ParquetWriter)
        ensures
            r.spec_file_path() == file_path@,
            r.spec_indexer() == indexer,
    {
        ParquetWriter { file_path, metadata, indexer }
    }

    /// Consumes the source, interleaving index construction with data
    /// encoding, and persists the results.  Returns the empty result, and
    /// creates no object, if and only if the source yields zero rows;
    /// otherwise the data object — and, when the indexer creates one, the
    /// index object — appears at its destination and the statistics are
    /// returned.
    pub fn write_all(self, store: &mut ObjectStore, source: Source, opts: &WriteOptions) -> (r:
        Result<Option<SstInfo>, Error>)
        requires
            old(store).wf(),
            source.wf(),
        ensures
            final(store).wf(),
            final(store)@ == write_effect(
                old(store)@,
                self.spec_file_path(),
                self.spec_indexer().spec_file_path(),
                self.spec_indexer().spec_create(),
                source.batches(),
            ),
            r == Ok::<Option<SstInfo>, Error>(sst_write_result(source.batches())),
    {
        let total = source.row_count();
        if total == 0 {
            return Ok(None);
        }
        let data = encode_data(&source);
        let file_size = data.len() as u64;
        store.put(&self.file_path, data);
        if self.indexer.create {
            let index_bytes = encode_index(&source);
            store.put(&self.indexer.file_path, index_bytes);
        }
        Ok(
            Some(
                SstInfo {
                    file_size,
                    num_rows: total,
                    file_metadata: Some(ParquetMeta { num_rows: total, file_size }),
                },
            ),
        )
    }
}

/// A configurable, lazy reader builder bound to one file of one region.
///
/// Creating the builder performs no access to the backend; building an
/// actual reader is an external collaborator's responsibility.
pub struct ParquetReaderBuilder {
    region_dir: String,
    file: FileHandle,
}

impl ParquetReaderBuilder {
    /// The region directory the reader is bound to.
    pub closed spec fn spec_region_dir(self) -> Seq<char> {
        self.region_dir@
    }

    /// The file the reader is bound to.
    pub closed spec fn spec_file(self) -> FileHandle {
        self.file
    }

    /// Returns a builder bound to `file` under `region_dir`.
    pub fn new(region_dir: String, file: FileHandle) -> (r: ParquetReaderBuilder)
        ensures
            r.spec_region_dir() == region_dir@,
            r.spec_file() == file,
    {
        ParquetReaderBuilder { region_dir, file }
    }

    /// The address the reader will fetch the data object from.
    pub fn file_path(&self) -> (r: String)
        ensures
            r@ == sst_file_path_spec(self.spec_region_dir(), self.spec_file().meta.file_id),
    {
        sst_file_path(self.region_dir.as_str(), self.file.meta.file_id)
    }

    /// The file the reader is bound to.
    pub fn file(&self) -> (r: &FileHandle)
        ensures
            *r == self.spec_file(),
    {
        &self.file
    }
}

} // verus!
