//! What the metadata cache holds and how it is configured.

use crate::api::{AnimeData, AnimeInfo};
use crate::parser::clone_opt_string;
use crate::paths::{join_path, joined_path};
use crate::text::{extend_str, string_of};
use crate::timestamp::{whole_days_between, Timestamp};
use std::collections::HashMap;
use vstd::prelude::*;

verus! {

/// The schema version of the cache file that this library reads and writes.
pub const CACHE_VERSION: &'static str = "1.0";

/// The name of the cache file in a target directory.
pub const CACHE_FILE_NAME: &'static str = ".anidb2folder-cache.json";

/// Metadata of one title and the time it was fetched.
#[derive(Debug, Clone)]
pub struct CacheEntry {
    pub anidb_id: u32,
    pub title_main: String,
    pub title_en: Option<String>,
    pub release_year: Option<u16>,
    pub fetched_at: Timestamp,
}

/// Mathematical content of a [`CacheEntry`].
pub struct CacheEntryData {
    pub info: AnimeData,
    pub fetched_at: Timestamp,
}

impl View for CacheEntry {
    type V = CacheEntryData;

    open spec fn view(&self) -> CacheEntryData {
        CacheEntryData {
            info: AnimeData {
                id: self.anidb_id,
                title: self.title_main@,
                alt_title: crate::parser::opt_text(self.title_en),
                year: self.release_year,
            },
            fetched_at: self.fetched_at,
        }
    }
}

/// Whether what was fetched at `fetched_at` is too old at `now`: more whole
/// days have passed than `expiry_days`. Exactly `expiry_days` days is not
/// too old.
pub open spec fn expired(fetched_at: Timestamp, expiry_days: u32, now: Timestamp) -> bool {
    whole_days_between(now.total_nanos(), fetched_at.total_nanos()) > expiry_days
}

impl CacheEntry {
    /// An entry for the given metadata, fetched at `now`.
    pub fn from_anime_info(info: &AnimeInfo, now: Timestamp) -> (entry: CacheEntry)
        ensures
            entry@ == (CacheEntryData { info: info@, fetched_at: now }),
    {
        CacheEntry {
            anidb_id: info.anidb_id,
            title_main: info.title_main.clone(),
            title_en: clone_opt_string(&info.title_en),
            release_year: info.release_year,
            fetched_at: now,
        }
    }

    /// The metadata that the entry holds.
    pub fn to_anime_info(&self) -> (info: AnimeInfo)
        ensures
            info@ == self@.info,
    {
        AnimeInfo {
            anidb_id: self.anidb_id,
            title_main: self.title_main.clone(),
            title_en: clone_opt_string(&self.title_en),
            release_year: self.release_year,
        }
    }

    /// Whether the entry is too old at `now`.
    pub fn is_expired(&self, expiry_days: u32, now: &Timestamp) -> (r: bool)
        ensures
            r == expired(self.fetched_at, expiry_days, *now),
    {
        let age = now.days_since(&self.fetched_at);
        age > expiry_days as i64
    }
}

/// The cache file: a schema version and the entries by id.
#[derive(Debug, Clone)]
pub struct CacheFile {
    pub version: String,
    pub entries: HashMap<u32, CacheEntry>,
}

impl Default for CacheFile {
    /// An empty cache file of the current schema version.
    fn default() -> (file: CacheFile)
        ensures
            file.version@ == CACHE_VERSION@,
            file.entries@ == Map::<u32, CacheEntry>::empty(),
    {
        CacheFile { version: CACHE_VERSION.to_owned(), entries: HashMap::new() }
    }
}

/// Where the cache is kept and how long its entries are good.
#[derive(Debug, Clone)]
pub struct CacheConfig {
    pub expiry_days: u32,
    pub cache_path: String,
}

impl CacheConfig {
    /// The cache in the target directory itself.
    pub fn for_target_dir(target: &str, expiry_days: u32) -> (config: CacheConfig)
        ensures
            config.expiry_days == expiry_days,
            config.cache_path@ == joined_path(target@, CACHE_FILE_NAME@),
    {
        CacheConfig { expiry_days, cache_path: join_path(target, CACHE_FILE_NAME) }
    }

    /// The cache below the user's cache directory, where there is one.
    pub fn for_user_home(cache_dir: Option<&str>, expiry_days: u32) -> (config: Option<
        CacheConfig,
    >)
        ensures
            match config {
                Some(c) => cache_dir matches Some(dir) && c.expiry_days == expiry_days
                    && c.cache_path@ == joined_path(
                    joined_path(dir@, "anidb2folder"@),
                    "cache.json"@,
                ),
                None => cache_dir is None,
            },
    {
        match cache_dir {
            Some(dir) => {
                let below = join_path(dir, "anidb2folder");
                let cache_path = join_path(below.as_str(), "cache.json");
                Some(CacheConfig { expiry_days, cache_path })
            },
            None => None,
        }
    }

    /// A copy with the same content.
    pub fn duplicate(&self) -> (out: CacheConfig)
        ensures
            out.expiry_days == self.expiry_days,
            out.cache_path@ == self.cache_path@,
    {
        CacheConfig { expiry_days: self.expiry_days, cache_path: self.cache_path.clone() }
    }
}

/// Why the cache could not be read or written.
#[derive(Debug)]
pub enum CacheError {
    /// The file is no cache file.
    Corrupted,
    /// Reading or writing failed. Holds what the system said.
    IoError(String),
    /// The cache could not be written as JSON. Holds the reason.
    SerializeError(String),
    /// The file is of another schema version.
    VersionMismatch { expected: String, found: String },
}

impl CacheError {
    /// The message for a user, as a sequence of characters.
    pub open spec fn text(&self) -> Seq<char> {
        match self {
            CacheError::Corrupted => "Cache file corrupted"@,
            CacheError::IoError(m) => "I/O error: "@ + m@,
            CacheError::SerializeError(m) => "JSON serialization error: "@ + m@,
            CacheError::VersionMismatch { expected, found } => "Cache version mismatch: expected "@
                + expected@ + ", found "@ + found@,
        }
    }

    /// The message for a user.
    pub fn message(&self) -> (out: String)
        ensures
            out@ == self.text(),
    {
        let mut buf: Vec<char> = Vec::new();
        match self {
            CacheError::Corrupted => {
                extend_str(&mut buf, "Cache file corrupted");
            },
            CacheError::IoError(m) => {
                extend_str(&mut buf, "I/O error: ");
                extend_str(&mut buf, m.as_str());
            },
            CacheError::SerializeError(m) => {
                extend_str(&mut buf, "JSON serialization error: ");
                extend_str(&mut buf, m.as_str());
            },
            CacheError::VersionMismatch { expected, found } => {
                extend_str(&mut buf, "Cache version mismatch: expected ");
                extend_str(&mut buf, expected.as_str());
                extend_str(&mut buf, ", found ");
                extend_str(&mut buf, found.as_str());
            },
        }
        string_of(&buf)
    }
}

} // verus!
