//! Laws of the layer, stated and proved over the spec functions its
//! contracts use.

use vstd::prelude::*;

use crate::access_layer::atomic_write_dir_spec;
use crate::cache::cache_effect;
use crate::cache::CacheKey;
use crate::file::FileId;
use crate::location::index_file_path_spec;
use crate::location::lemma_data_index_paths_distinct;
use crate::location::lemma_index_paths_injective;
use crate::location::lemma_sst_paths_injective;
use crate::location::sst_file_path_spec;
use crate::parquet::spec_footer;
use crate::parquet::sst_write_result;
use crate::parquet::write_effect;
use crate::parquet::ParquetMeta;
use crate::read::total_rows_of;
use crate::store::remove_prefixed;

verus! {

/// Determinism: the path scheme is a pure function of the region directory
/// and the file id — repeated derivations from equal inputs yield
/// byte-identical paths.  The executable path functions return exactly
/// these spec values, so the law carries over to every call.
pub proof fn lemma_path_scheme_deterministic(
    dir1: Seq<char>,
    id1: FileId,
    dir2: Seq<char>,
    id2: FileId,
)
    requires
        dir1 == dir2,
        id1 == id2,
    ensures
        sst_file_path_spec(dir1, id1) == sst_file_path_spec(dir2, id2),
        index_file_path_spec(dir1, id1) == index_file_path_spec(dir2, id2),
{
}

/// Empty-source law: a write returns the empty result if and only if the
/// source yields zero rows, and in that case no destination object is
/// created.
pub proof fn lemma_empty_source(
    m: Map<Seq<char>, Seq<u8>>,
    data_path: Seq<char>,
    index_path: Seq<char>,
    create_index: bool,
    batches: Seq<u64>,
)
    ensures
        sst_write_result(batches) is None <==> total_rows_of(batches) == 0,
        total_rows_of(batches) == 0 ==> write_effect(m, data_path, index_path, create_index, batches)
            == m,
        total_rows_of(batches) > 0 ==> write_effect(m, data_path, index_path, create_index, batches)
            .contains_key(data_path),
{
}

/// Index-flag law: when index creation is disabled, a write — on whichever
/// path it executed, since both paths have the same effect — neither creates
/// nor removes any index object of the region.
pub proof fn lemma_index_flag(
    m: Map<Seq<char>, Seq<u8>>,
    region_dir: Seq<char>,
    written: FileId,
    other: FileId,
    batches: Seq<u64>,
)
    ensures
        write_effect(
            m,
            sst_file_path_spec(region_dir, written),
            index_file_path_spec(region_dir, written),
            false,
            batches,
        ).contains_key(index_file_path_spec(region_dir, other)) == m.contains_key(
            index_file_path_spec(region_dir, other),
        ),
{
    lemma_data_index_paths_distinct(region_dir, written, other);
}

/// Existence round-trip, first half: after a successful non-empty write,
/// the data object of the written file is present, so an existence check on
/// the resulting metadata returns true.
pub proof fn lemma_exists_after_write(
    m: Map<Seq<char>, Seq<u8>>,
    region_dir: Seq<char>,
    file_id: FileId,
    create_index: bool,
    batches: Seq<u64>,
)
    requires
        total_rows_of(batches) > 0,
    ensures
        write_effect(
            m,
            sst_file_path_spec(region_dir, file_id),
            index_file_path_spec(region_dir, file_id),
            create_index,
            batches,
        ).contains_key(sst_file_path_spec(region_dir, file_id)),
{
    lemma_data_index_paths_distinct(region_dir, file_id, file_id);
}

/// Existence round-trip, second half: a write of one file id never creates
/// or removes the data object of another, so a file id that was never
/// written stays absent and an existence check on it returns false.
pub proof fn lemma_write_leaves_other_files(
    m: Map<Seq<char>, Seq<u8>>,
    region_dir: Seq<char>,
    written: FileId,
    other: FileId,
    create_index: bool,
    batches: Seq<u64>,
)
    requires
        written != other,
    ensures
        write_effect(
            m,
            sst_file_path_spec(region_dir, written),
            index_file_path_spec(region_dir, written),
            create_index,
            batches,
        ).contains_key(sst_file_path_spec(region_dir, other)) == m.contains_key(
            sst_file_path_spec(region_dir, other),
        ),
{
    if sst_file_path_spec(region_dir, written) == sst_file_path_spec(region_dir, other) {
        lemma_sst_paths_injective(region_dir, written, other);
    }
    lemma_data_index_paths_distinct(region_dir, other, written);
}

/// Cache seeding: a successful write that yields footer metadata binds that
/// footer to (region id, file id) in the metadata cache, so a lookup
/// returns it without re-deriving it from the backend; an empty write
/// leaves the cache untouched.
pub proof fn lemma_cache_seeding(
    c: Map<CacheKey, ParquetMeta>,
    region_id: u64,
    file_id: FileId,
    batches: Seq<u64>,
)
    ensures
        total_rows_of(batches) > 0 ==> {
            let seeded = cache_effect(c, region_id, file_id, batches);
            &&& seeded.contains_key(CacheKey { region_id, file_id })
            &&& seeded[CacheKey { region_id, file_id }] == spec_footer(batches)
        },
        total_rows_of(batches) == 0 ==> cache_effect(c, region_id, file_id, batches) == c,
{
}

/// Clean-staging guarantee: immediately after a backend bootstrap over any
/// prior contents, the atomic-write staging area holds no object.
pub proof fn lemma_clean_staging(m: Map<Seq<char>, Seq<u8>>, root: Seq<char>, p: Seq<char>)
    requires
        atomic_write_dir_spec(root).is_prefix_of(p),
    ensures
        !remove_prefixed(m, atomic_write_dir_spec(root)).contains_key(p),
{
}

/// Index paths are as unambiguous as data paths: within one region
/// directory, distinct file ids never share an index address either.
pub proof fn lemma_index_addresses_unambiguous(region_dir: Seq<char>, a: FileId, b: FileId)
    requires
        a != b,
    ensures
        index_file_path_spec(region_dir, a) != index_file_path_spec(region_dir, b),
{
    if index_file_path_spec(region_dir, a) == index_file_path_spec(region_dir, b) {
        lemma_index_paths_injective(region_dir, a, b);
    }
}

} // verus!
