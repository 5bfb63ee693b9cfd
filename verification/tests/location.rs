//! Tests of the path scheme.

use mito2::file::FileId;
use mito2::location::decimal_string;
use mito2::location::index_file_path;
use mito2::location::join_path;
use mito2::location::sst_file_path;

#[test]
fn decimal_rendering_exact() {
    assert_eq!(decimal_string(0), "0");
    assert_eq!(decimal_string(7), "7");
    assert_eq!(decimal_string(10), "10");
    assert_eq!(decimal_string(12345), "12345");
    assert_eq!(decimal_string(u64::MAX), "18446744073709551615");
}

#[test]
fn join_path_edge_cases() {
    assert_eq!(join_path("", "42.parquet"), "42.parquet");
    assert_eq!(join_path("region/", "42.parquet"), "region/42.parquet");
    assert_eq!(join_path("region", "42.parquet"), "region/42.parquet");
    assert_eq!(join_path("a/b", "c"), "a/b/c");
}

#[test]
fn path_values_exact() {
    let id = FileId::new(42);
    assert_eq!(sst_file_path("region/", id), "region/42.parquet");
    assert_eq!(index_file_path("region/", id), "region/42.puffin");
    assert_eq!(sst_file_path("data", id), "data/42.parquet");
    assert_eq!(sst_file_path("", id), "42.parquet");
}

#[test]
fn paths_are_deterministic() {
    let id = FileId::new(987654321);
    let first = sst_file_path("some/region/dir", id);
    let second = sst_file_path("some/region/dir", id);
    assert_eq!(first, second);
    let first_index = index_file_path("some/region/dir", id);
    let second_index = index_file_path("some/region/dir", id);
    assert_eq!(first_index, second_index);
}

#[test]
fn paths_of_distinct_ids_differ() {
    let a = sst_file_path("region/", FileId::new(1));
    let b = sst_file_path("region/", FileId::new(2));
    assert_ne!(a, b);
    let ia = index_file_path("region/", FileId::new(1));
    assert_ne!(a, ia);
}
