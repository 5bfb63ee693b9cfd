//! Tests of the backend bootstrap and its clean-staging guarantee.

use mito2::access_layer::new_fs_object_store;
use mito2::store::ObjectStore;

#[test]
fn bootstrap_cleans_staging_area() {
    let mut prior = ObjectStore::new();
    prior.put(&".tmp/partial-upload".to_string(), vec![1, 2, 3]);
    prior.put(&".tmp/another".to_string(), vec![4]);
    prior.put(&"region/1.parquet".to_string(), vec![5, 6]);

    let store = new_fs_object_store("", prior).unwrap();

    assert!(!store.is_exist(&".tmp/partial-upload".to_string()));
    assert!(!store.is_exist(&".tmp/another".to_string()));
    assert!(store.is_exist(&"region/1.parquet".to_string()));
}

#[test]
fn bootstrap_scopes_staging_to_root() {
    let mut prior = ObjectStore::new();
    prior.put(&"data/.tmp/staged".to_string(), vec![9]);
    prior.put(&"data/kept".to_string(), vec![8]);
    prior.put(&"elsewhere/.tmp/outside-root".to_string(), vec![7]);

    let store = new_fs_object_store("data", prior).unwrap();

    assert!(!store.is_exist(&"data/.tmp/staged".to_string()));
    assert!(store.is_exist(&"data/kept".to_string()));
    assert!(store.is_exist(&"elsewhere/.tmp/outside-root".to_string()));
}

#[test]
fn bootstrap_of_clean_root_keeps_everything() {
    let mut prior = ObjectStore::new();
    prior.put(&"region/2.parquet".to_string(), vec![1]);

    let store = new_fs_object_store("", prior).unwrap();

    assert!(store.is_exist(&"region/2.parquet".to_string()));
}

#[test]
fn store_put_delete_roundtrip() {
    let mut store = ObjectStore::new();
    let path = "region/3.parquet".to_string();
    assert!(!store.is_exist(&path));
    store.put(&path, vec![1, 2]);
    assert!(store.is_exist(&path));
    store.put(&path, vec![3]);
    assert!(store.is_exist(&path));
    store.delete(&path).unwrap();
    assert!(!store.is_exist(&path));
    assert!(store.delete(&path).is_err());
}
