//! The cache store: entries by id, a dirty mark, and the rules for reading
//! the file, looking up, inserting, pruning and saving.

use super::types::{
    expired, CacheConfig, CacheEntry, CacheEntryData, CacheError, CacheFile, CACHE_VERSION,
};
use crate::api::{AnimeData, AnimeInfo};
use crate::text::{chars_of, same_chars};
use crate::timestamp::Timestamp;

use vstd::prelude::*;
use vstd::std_specs::hash::group_hash_axioms;
use vstd::std_specs::iter::IteratorSpec;

verus! {

broadcast use group_hash_axioms;

/// A cache of metadata that is kept in a file.
pub struct CacheStore {
    config: CacheConfig,
    data: CacheFile,
    dirty: bool,
}

/// What reading a cache file gives: the file where it is of the current
/// schema version, `VersionMismatch` where it is of another, and the error
/// of reading or decoding unchanged.
pub open spec fn checked_cache_file(
    contents: Result<CacheFile, CacheError>,
    result: Result<CacheFile, CacheError>,
) -> bool {
    match contents {
        Ok(file) => if file.version@ == CACHE_VERSION@ {
            result == Ok::<CacheFile, CacheError>(file)
        } else {
            result matches Err(CacheError::VersionMismatch { expected, found }) && expected@
                == CACHE_VERSION@ && found@ == file.version@
        },
        Err(e) => result == Err::<CacheFile, CacheError>(e),
    }
}

/// The entries that a store starts with, given what reading the file gave:
/// those of the file where it is of the current schema version, none else.
pub open spec fn loaded_entries(contents: Result<CacheFile, CacheError>) -> Map<u32, CacheEntry> {
    match contents {
        Ok(file) => if file.version@ == CACHE_VERSION@ {
            file.entries@
        } else {
            Map::empty()
        },
        Err(_) => Map::empty(),
    }
}

impl CacheStore {
    /// The entries by id.
    pub closed spec fn entries(&self) -> Map<u32, CacheEntry> {
        self.data.entries@
    }

    /// Whether the store differs from what the file holds.
    pub closed spec fn is_dirty(&self) -> bool {
        self.dirty
    }

    /// The days after which an entry is too old.
    pub closed spec fn expiry_days(&self) -> u32 {
        self.config.expiry_days
    }

    /// The path of the cache file.
    pub closed spec fn cache_path(&self) -> Seq<char> {
        self.config.cache_path@
    }

    /// The schema version that the store is written with.
    pub closed spec fn version(&self) -> Seq<char> {
        self.data.version@
    }

    /// The store is `before` with `info` put in as fetched at `now`: the
    /// entry for the id of `info` holds `info` and `now`, every other entry
    /// is as before, the store is dirty, and nothing else has changed.
    pub open spec fn holds_inserted(
        &self,
        before: CacheStore,
        info: AnimeData,
        now: Timestamp,
    ) -> bool {
        &&& self.entries().dom() == before.entries().dom().insert(info.id)
        &&& self.entries()[info.id]@ == (CacheEntryData { info, fetched_at: now })
        &&& forall|id: u32|
            id != info.id && before.entries().contains_key(id) ==> self.entries()[id]
                == before.entries()[id]
        &&& self.is_dirty()
        &&& self.expiry_days() == before.expiry_days()
        &&& self.cache_path() == before.cache_path()
        &&& self.version() == before.version()
    }

    /// The store holds finitely many entries.
    pub proof fn lemma_entries_are_finite(&self)
        ensures
            self.entries().dom().finite(),
    {
    }

    /// Putting metadata in adds one entry where the store held none for
    /// that id, and none where it held one.
    pub proof fn lemma_inserted_count(&self, before: CacheStore, info: AnimeData, now: Timestamp)
        requires
            self.holds_inserted(before, info, now),
        ensures
            self.entries().len() == before.entries().len() + (if before.entries().contains_key(
                info.id,
            ) {
                0nat
            } else {
                1nat
            }),
    {
        before.lemma_entries_are_finite();
        if before.entries().contains_key(info.id) {
            assert(before.entries().dom().insert(info.id) =~= before.entries().dom());
        }
    }

    /// The metadata that a lookup of `id` at `now` gives: that of the entry
    /// with this id where there is one and it is not too old.
    pub open spec fn lookup(&self, id: u32, now: Timestamp) -> Option<CacheEntry> {
        if self.entries().contains_key(id) && !expired(
            self.entries()[id].fetched_at,
            self.expiry_days(),
            now,
        ) {
            Some(self.entries()[id])
        } else {
            None
        }
    }

    /// Checks the schema version of what was read from a cache file.
    pub fn read_cache_file(contents: Result<CacheFile, CacheError>) -> (result: Result<
        CacheFile,
        CacheError,
    >)
        ensures
            checked_cache_file(contents, result),
    {
        match contents {
            Ok(file) => {
                let found = chars_of(file.version.as_str());
                let expected = chars_of(CACHE_VERSION);
                if same_chars(&found, &expected) {
                    Ok(file)
                } else {
                    Err(
                        CacheError::VersionMismatch {
                            expected: CACHE_VERSION.to_owned(),
                            found: file.version,
                        },
                    )
                }
            },
            Err(e) => Err(e),
        }
    }

    /// Starts a store from what reading the cache file gave. A file that is
    /// missing, unreadable, no cache file or of another schema version gives
    /// an empty store; no error is passed on.
    pub fn load(config: CacheConfig, contents: Result<CacheFile, CacheError>) -> (store: CacheStore)
        ensures
            store.entries() == loaded_entries(contents),
            store.version() == CACHE_VERSION@,
            !store.is_dirty(),
            store.expiry_days() == config.expiry_days,
            store.cache_path() == config.cache_path@,
    {
        let data = match CacheStore::read_cache_file(contents) {
            Ok(file) => file,
            Err(_) => CacheFile::default(),
        };
        CacheStore { config, data, dirty: false }
    }

    /// The metadata for `id`, where the cache holds it and it is not too old
    /// at `now`.
    pub fn get(&self, anidb_id: u32, now: &Timestamp) -> (found: Option<AnimeInfo>)
        ensures
            match found {
                Some(info) => self.lookup(anidb_id, *now) matches Some(entry) && info@
                    == entry@.info,
                None => self.lookup(anidb_id, *now) is None,
            },
    {
        match self.data.entries.get(&anidb_id) {
            Some(entry) => {
                if entry.is_expired(self.config.expiry_days, now) {
                    None
                } else {
                    Some(entry.to_anime_info())
                }
            },
            None => None,
        }
    }

    /// Whether the cache holds metadata for `id` that is not too old at
    /// `now`.
    pub fn has_valid(&self, anidb_id: u32, now: &Timestamp) -> (r: bool)
        ensures
            r == self.lookup(anidb_id, *now) is Some,
    {
        self.get(anidb_id, now).is_some()
    }

    /// Puts metadata into the cache as fetched at `now`, in place of what
    /// the cache held for that id, and marks the store dirty.
    pub fn insert(&mut self, info: &AnimeInfo, now: Timestamp)
        ensures
            final(self).holds_inserted(*old(self), info@, now),
    {
        let entry = CacheEntry::from_anime_info(info, now);
        self.data.entries.insert(entry.anidb_id, entry);
        self.dirty = true;
    }

    /// The ids whose entries are too old at `now`, each once.
    fn expired_keys(&self, now: &Timestamp) -> (doomed: Vec<u32>)
        ensures
            doomed@.to_set() == self.expired_ids(*now),
            doomed@.no_duplicates(),
            doomed@.len() == self.expired_ids(*now).len(),
    {
        broadcast use vstd::std_specs::hash::axiom_spec_keys_iter;

        let ghost all = self.entries();
        let ghost keys = vstd::std_specs::hash::spec_keys_iter(
            &self.data.entries,
        ).remaining().unref();
        let ghost stale = |k: u32| expired(all[k].fetched_at, self.expiry_days(), *now);
        let mut doomed: Vec<u32> = Vec::new();
        let ghost mut done: int = 0;
        for id in it: self.data.entries.keys()
            invariant
                all == self.entries(),
                keys == it.seq().unref(),
                keys.to_set() == all.dom(),
                it.seq().no_duplicates(),
                stale == |k: u32| expired(all[k].fetched_at, self.expiry_days(), *now),
                done == it.index(),
                0 <= done <= keys.len(),
                doomed@.to_set() == keys.take(done).to_set().filter(stale),
                doomed@.no_duplicates(),
        {
            proof {
                let k = done;
                assert(keys.take(k + 1) =~= keys.take(k).push(*id));
                keys.take(k).lemma_push_to_set_commute(*id);
            }
            match self.data.entries.get(id) {
                Some(entry) => {
                    if entry.is_expired(self.config.expiry_days, now) {
                        proof {
                            assert(!doomed@.to_set().contains(*id));
                            doomed@.lemma_push_to_set_commute(*id);
                        }
                        doomed.push(*id);
                    }
                },
                None => {},
            }
            proof {
                done = done + 1;
            }
        }
        proof {
            assert(keys.take(keys.len() as int) =~= keys);
            doomed@.unique_seq_to_set();
        }
        doomed
    }

    /// How many entries are too old at `now`.
    pub fn expired_count(&self, now: &Timestamp) -> (count: usize)
        ensures
            count == self.expired_ids(*now).len(),
            count <= self.entries().len(),
    {
        proof {
            vstd::set_lib::lemma_len_subset(self.expired_ids(*now), self.entries().dom());
        }
        self.expired_keys(now).len()
    }

    /// How many entries are not too old at `now`.
    pub fn valid_count(&self, now: &Timestamp) -> (count: usize)
        ensures
            count == self.entries().len() - self.expired_ids(*now).len(),
    {
        self.len() - self.expired_count(now)
    }

    /// Removes the entries that are too old at `now`, and marks the store
    /// dirty where it removed one. Gives the number of entries removed.
    pub fn prune_expired(&mut self, now: &Timestamp) -> (removed: usize)
        ensures
            final(self).entries() == old(self).entries().remove_keys(
                old(self).expired_ids(*now),
            ),
            removed == old(self).expired_ids(*now).len(),
            final(self).is_dirty() == (old(self).is_dirty() || removed > 0),
            final(self).expiry_days() == old(self).expiry_days(),
            final(self).cache_path() == old(self).cache_path(),
            final(self).version() == old(self).version(),
    {
        let doomed = self.expired_keys(now);
        let ghost all = self.entries();
        let mut j: usize = 0;
        while j < doomed.len()
            invariant
                j <= doomed.len(),
                self.entries() == all.remove_keys(doomed@.take(j as int).to_set()),
                self.is_dirty() == old(self).is_dirty(),
                self.expiry_days() == old(self).expiry_days(),
                self.cache_path() == old(self).cache_path(),
                self.version() == old(self).version(),
            decreases doomed.len() - j,
        {
            let id = doomed[j];
            proof {
                assert(doomed@.take(j + 1) =~= doomed@.take(j as int).push(id));
                doomed@.take(j as int).lemma_push_to_set_commute(id);
            }
            self.data.entries.remove(&id);
            j += 1;
        }
        assert(doomed@.take(doomed.len() as int) =~= doomed@);
        let removed = doomed.len();
        if removed > 0 {
            self.dirty = true;
        }
        removed
    }

    /// The ids whose entries are too old at `now`.
    pub open spec fn expired_ids(&self, now: Timestamp) -> Set<u32> {
        self.entries().dom().filter(
            |k: u32| expired(self.entries()[k].fetched_at, self.expiry_days(), now),
        )
    }

    /// Removes every entry, and marks the store dirty.
    pub fn clear(&mut self)
        ensures
            final(self).entries() == Map::<u32, CacheEntry>::empty(),
            final(self).is_dirty(),
            final(self).expiry_days() == old(self).expiry_days(),
            final(self).cache_path() == old(self).cache_path(),
            final(self).version() == old(self).version(),
    {
        self.data.entries.clear();
        self.dirty = true;
    }

    /// What is to be written to the cache file: the contents of the store
    /// where it is dirty, nothing where it is not.
    pub fn save(&self) -> (pending: Option<&CacheFile>)
        ensures
            pending is Some <==> self.is_dirty(),
            pending matches Some(file) ==> file.entries@ == self.entries() && file.version@
                == self.version(),
    {
        if self.dirty {
            Some(&self.data)
        } else {
            None
        }
    }

    /// Records that the contents of the store were written to the cache
    /// file.
    pub fn mark_saved(&mut self)
        ensures
            !final(self).is_dirty(),
            final(self).entries() == old(self).entries(),
            final(self).expiry_days() == old(self).expiry_days(),
            final(self).cache_path() == old(self).cache_path(),
            final(self).version() == old(self).version(),
    {
        self.dirty = false;
    }

    /// How many entries the cache holds.
    pub fn len(&self) -> (n: usize)
        ensures
            n == self.entries().len(),
            self.entries().dom().finite(),
    {
        self.data.entries.len()
    }

    /// Whether the cache holds no entry.
    pub fn is_empty(&self) -> (r: bool)
        ensures
            r == (self.entries().len() == 0),
    {
        self.data.entries.len() == 0
    }

    /// The path of the cache file.
    pub fn path(&self) -> (p: &str)
        ensures
            p@ == self.cache_path(),
    {
        self.config.cache_path.as_str()
    }

    /// The path that the cache file is written to before it takes the place
    /// of the cache file.
    pub fn temp_path(&self) -> (p: String)
        ensures
            p@ == crate::paths::path_with_extension(self.cache_path(), "json.tmp"@),
    {
        crate::paths::temp_path_of(self.config.cache_path.as_str())
    }
}

} // verus!
