//! Tests of the access layer: write paths, deletion ordering, existence
//! checks and cache seeding.

use mito2::access_layer::AccessLayer;
use mito2::access_layer::SstWriteRequest;
use mito2::cache::CacheManager;
use mito2::cache::WriteCache;
use mito2::error::Error;
use mito2::error::StoreErrorKind;
use mito2::file::FileHandle;
use mito2::file::FileId;
use mito2::file::FileMeta;
use mito2::index::IntermediateManager;
use mito2::location::index_file_path;
use mito2::location::sst_file_path;
use mito2::metadata::RegionMetadata;
use mito2::parquet::WriteOptions;
use mito2::read::Source;
use mito2::store::ObjectStore;

fn new_layer(region_dir: &str) -> AccessLayer {
    AccessLayer::new(
        region_dir.to_string(),
        ObjectStore::new(),
        IntermediateManager::new("intermediate/".to_string()),
    )
}

fn new_request(file_id: u64, batches: Vec<u64>, create_index: bool) -> SstWriteRequest {
    SstWriteRequest {
        file_id: FileId::new(file_id),
        metadata: RegionMetadata::new(1),
        source: Source::new(batches),
        storage: None,
        create_inverted_index: create_index,
        mem_threshold_index_create: None,
        index_write_buffer_size: None,
    }
}

#[test]
fn write_direct_path_with_index() {
    let mut layer = new_layer("region/");
    let mut cache = CacheManager::new(None);
    let request = new_request(7, vec![4000, 6000], true);

    let info = layer.write_sst(request, &WriteOptions::default(), &mut cache).unwrap().unwrap();

    assert_eq!(info.num_rows, 10000);
    assert_eq!(info.file_size, 16);
    let footer = info.file_metadata.unwrap();
    assert_eq!(footer.num_rows, 10000);
    assert_eq!(footer.file_size, 16);

    let meta = FileMeta { file_id: FileId::new(7), inverted_index_available: true };
    assert!(layer.is_exist(&meta).unwrap());
    let index_path = index_file_path("region/", FileId::new(7));
    assert!(layer.object_store().is_exist(&index_path));

    let cached = cache.get_parquet_meta_data(1, FileId::new(7)).unwrap();
    assert_eq!(cached, footer);
}

#[test]
fn write_empty_source_creates_nothing() {
    let mut layer = new_layer("region/");
    let mut cache = CacheManager::new(None);
    let request = new_request(3, vec![], true);

    let result = layer.write_sst(request, &WriteOptions::default(), &mut cache).unwrap();
    assert!(result.is_none());

    let meta = FileMeta { file_id: FileId::new(3), inverted_index_available: false };
    assert!(!layer.is_exist(&meta).unwrap());
    let index_path = index_file_path("region/", FileId::new(3));
    assert!(!layer.object_store().is_exist(&index_path));
    assert!(cache.get_parquet_meta_data(1, FileId::new(3)).is_none());
}

#[test]
fn write_without_index_then_delete() {
    let mut layer = new_layer("region/");
    let mut cache = CacheManager::new(None);
    let request = new_request(9, vec![25], false);

    let info = layer.write_sst(request, &WriteOptions::default(), &mut cache).unwrap().unwrap();
    assert_eq!(info.num_rows, 25);

    let index_path = index_file_path("region/", FileId::new(9));
    assert!(!layer.object_store().is_exist(&index_path));

    let meta = FileMeta { file_id: FileId::new(9), inverted_index_available: false };
    assert!(layer.is_exist(&meta).unwrap());
    layer.delete_sst(&meta).unwrap();
    assert!(!layer.is_exist(&meta).unwrap());
}

#[test]
fn delete_unwritten_reports_not_found() {
    let mut layer = new_layer("region/");
    let meta = FileMeta { file_id: FileId::new(404), inverted_index_available: true };

    let err = layer.delete_sst(&meta).unwrap_err();
    assert!(err.is_not_found());
    assert_eq!(err.file_id(), FileId::new(404));
    match err {
        Error::DeleteSst { file_id, kind } => {
            assert_eq!(file_id, FileId::new(404));
            assert_eq!(kind, StoreErrorKind::NotFound);
        }
        Error::DeleteIndex { .. } => panic!("index deletion must not be attempted"),
    }
}

#[test]
fn delete_with_index_removes_both_objects() {
    let mut layer = new_layer("region/");
    let mut cache = CacheManager::new(None);
    let request = new_request(5, vec![100], true);
    layer.write_sst(request, &WriteOptions::default(), &mut cache).unwrap();

    let meta = FileMeta { file_id: FileId::new(5), inverted_index_available: true };
    layer.delete_sst(&meta).unwrap();

    assert!(!layer.is_exist(&meta).unwrap());
    let index_path = index_file_path("region/", FileId::new(5));
    assert!(!layer.object_store().is_exist(&index_path));
}

#[test]
fn delete_missing_index_leaves_data_removed() {
    let mut layer = new_layer("region/");
    let mut cache = CacheManager::new(None);
    // The write creates no index object, but the metadata claims one exists.
    let request = new_request(6, vec![10], false);
    layer.write_sst(request, &WriteOptions::default(), &mut cache).unwrap();

    let meta = FileMeta { file_id: FileId::new(6), inverted_index_available: true };
    let err = layer.delete_sst(&meta).unwrap_err();
    match err {
        Error::DeleteIndex { file_id, kind } => {
            assert_eq!(file_id, FileId::new(6));
            assert_eq!(kind, StoreErrorKind::NotFound);
        }
        Error::DeleteSst { .. } => panic!("primary deletion must succeed"),
    }
    // The data object was deleted before the index deletion failed.
    assert!(!layer.is_exist(&meta).unwrap());
}

#[test]
fn unwritten_file_id_does_not_exist() {
    let mut layer = new_layer("region/");
    let mut cache = CacheManager::new(None);
    let request = new_request(1, vec![50], true);
    layer.write_sst(request, &WriteOptions::default(), &mut cache).unwrap();

    let other = FileMeta { file_id: FileId::new(2), inverted_index_available: false };
    assert!(!layer.is_exist(&other).unwrap());
}

#[test]
fn cache_mediated_path_same_outcome() {
    let write_cache =
        WriteCache::new("cache/".to_string(), IntermediateManager::new("inter/".to_string()));
    let mut cached_layer = new_layer("region/");
    let mut cache = CacheManager::new(Some(write_cache));
    let mut direct_layer = new_layer("region/");
    let mut no_cache = CacheManager::new(None);

    let info_cached = cached_layer
        .write_sst(new_request(11, vec![30, 12], true), &WriteOptions::default(), &mut cache)
        .unwrap()
        .unwrap();
    let info_direct = direct_layer
        .write_sst(new_request(11, vec![30, 12], true), &WriteOptions::default(), &mut no_cache)
        .unwrap()
        .unwrap();

    assert_eq!(info_cached, info_direct);
    let meta = FileMeta { file_id: FileId::new(11), inverted_index_available: true };
    assert!(cached_layer.is_exist(&meta).unwrap());
    assert!(direct_layer.is_exist(&meta).unwrap());
    let index_path = index_file_path("region/", FileId::new(11));
    assert!(cached_layer.object_store().is_exist(&index_path));
    assert!(direct_layer.object_store().is_exist(&index_path));
    assert_eq!(
        cache.get_parquet_meta_data(1, FileId::new(11)),
        no_cache.get_parquet_meta_data(1, FileId::new(11))
    );
}

#[test]
fn cache_mediated_path_respects_index_flag() {
    let write_cache =
        WriteCache::new("cache/".to_string(), IntermediateManager::new("inter/".to_string()));
    let mut layer = new_layer("region/");
    let mut cache = CacheManager::new(Some(write_cache));

    layer
        .write_sst(new_request(12, vec![8], false), &WriteOptions::default(), &mut cache)
        .unwrap()
        .unwrap();

    let index_path = index_file_path("region/", FileId::new(12));
    assert!(!layer.object_store().is_exist(&index_path));
    let meta = FileMeta { file_id: FileId::new(12), inverted_index_available: false };
    assert!(layer.is_exist(&meta).unwrap());
}

#[test]
fn rewrite_of_same_file_id_wins_in_cache() {
    let mut layer = new_layer("region/");
    let mut cache = CacheManager::new(None);

    let first = layer
        .write_sst(new_request(13, vec![5], false), &WriteOptions::default(), &mut cache)
        .unwrap()
        .unwrap();
    let second = layer
        .write_sst(new_request(13, vec![6, 6], false), &WriteOptions::default(), &mut cache)
        .unwrap()
        .unwrap();

    assert_eq!(first.num_rows, 5);
    assert_eq!(second.num_rows, 12);
    let cached = cache.get_parquet_meta_data(1, FileId::new(13)).unwrap();
    assert_eq!(cached, second.file_metadata.unwrap());
    let meta = FileMeta { file_id: FileId::new(13), inverted_index_available: false };
    assert!(layer.is_exist(&meta).unwrap());
}

#[test]
fn reader_builder_binds_identity_without_io() {
    let layer = new_layer("region/");
    let meta = FileMeta { file_id: FileId::new(21), inverted_index_available: false };
    let builder = layer.read_sst(FileHandle::new(meta));
    assert_eq!(builder.file_path(), sst_file_path("region/", FileId::new(21)));
    assert_eq!(builder.file().file_id(), FileId::new(21));
}

#[test]
fn accessors_report_construction_state() {
    let layer = new_layer("some/region/");
    assert_eq!(layer.region_dir(), "some/region/");
    assert!(!layer.object_store().is_exist(&"anything".to_string()));
}

#[test]
fn default_write_options() {
    let opts = WriteOptions::default();
    assert_eq!(opts.row_group_size, 102400);
    assert_eq!(opts.write_buffer_size, 8 * 1024 * 1024);
}
