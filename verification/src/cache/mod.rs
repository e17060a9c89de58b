//! A cache of fetched metadata, keyed by id, whose entries expire.

mod store;
mod types;

pub use store::{checked_cache_file, loaded_entries, CacheStore};
pub use types::{
    expired, CacheConfig, CacheEntry, CacheEntryData, CacheError, CacheFile, CACHE_FILE_NAME,
    CACHE_VERSION,
};
