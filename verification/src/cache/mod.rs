//! Build caching: fingerprints of the sources, and one record per target
//! that tells whether the target has to be built again.

pub mod hash;
pub mod store;

pub use hash::{has_file_changed, hash_file, hash_files, FileMeta, FileProbe};
pub use store::{BuildCache, CacheEntry, CacheEntryView, CacheStats, StoreContents};
