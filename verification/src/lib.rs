//! SST access layer of a region-based storage engine.
//!
//! The crate persists, retrieves and removes immutable sorted data files
//! ("SSTs") and their auxiliary inverted-index files for a single region,
//! against an object-store backend.  The backend and the metadata cache are
//! value models held by the layer itself, so every operation of the layer is
//! verified: path derivation, write-path selection, index coordination,
//! deletion ordering, cache seeding and the staging cleanup performed when a
//! local backend is bootstrapped.

pub mod access_layer;
pub mod cache;
pub mod error;
pub mod file;
pub mod index;
pub mod laws;
pub mod location;
pub mod metadata;
pub mod parquet;
pub mod read;
pub mod store;
