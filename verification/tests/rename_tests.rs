use std::collections::BTreeSet;

use anidb2folder::api::{AnimeInfo, ApiConfig, ApiError};
use anidb2folder::cache::{CacheConfig, CacheError, CacheStore};
use anidb2folder::rename::{
    placeholder_info, rename_to_anidb, rename_to_readable, RenameAction, RenameDirection,
    RenameError, RenameEvent, RenameOptions, RenamePhase, RenameResult,
};
use anidb2folder::scanner::DirectoryEntry;
use anidb2folder::timestamp::Timestamp;
use anidb2folder::validator::validate_directories;

const TARGET: &str = "/anime";

fn now() -> Timestamp {
    Timestamp::new(1_768_473_045, 0).unwrap()
}

fn make_entry(name: &str) -> DirectoryEntry {
    DirectoryEntry {
        name: name.to_string(),
        path: format!("{}/{}", TARGET, name),
    }
}

fn fresh_cache() -> CacheStore {
    CacheStore::load(
        CacheConfig::for_target_dir(TARGET, 30),
        Err(CacheError::IoError("No such file or directory".to_string())),
    )
}

fn cache_with(infos: &[AnimeInfo]) -> CacheStore {
    let mut cache = fresh_cache();
    for info in infos {
        cache.insert(info, now());
    }
    cache.mark_saved();
    cache
}

fn test_anime() -> AnimeInfo {
    AnimeInfo {
        anidb_id: 12345,
        title_main: "Test Anime".to_string(),
        title_en: None,
        release_year: Some(2020),
    }
}

/// A directory that is kept in memory, and a provider that answers from a list.
struct World {
    names: BTreeSet<String>,
    provider: Vec<AnimeInfo>,
    fetches: Vec<u32>,
    renames: Vec<(String, String)>,
    checks: usize,
}

impl World {
    fn new(names: &[&str]) -> World {
        World {
            names: names.iter().map(|n| n.to_string()).collect(),
            provider: Vec::new(),
            fetches: Vec::new(),
            renames: Vec::new(),
            checks: 0,
        }
    }

    fn name_of(path: &str) -> String {
        path.strip_prefix("/anime/").expect("a path in the target directory").to_string()
    }

    fn holds(&self, name: &str) -> bool {
        self.names.contains(name)
    }

    /// Answers an action with the event that it leads to.
    fn perform(&mut self, action: RenameAction) -> Result<RenameEvent, RenameAction> {
        match action {
            RenameAction::FetchMetadata { anidb_id } => {
                self.fetches.push(anidb_id);
                let found = self.provider.iter().find(|i| i.anidb_id == anidb_id);
                Ok(RenameEvent::Metadata(match found {
                    Some(info) => Ok(info.clone()),
                    None => Err(ApiError::NotFound(anidb_id)),
                }))
            }
            RenameAction::CheckDestination { path } => {
                self.checks += 1;
                Ok(RenameEvent::DestinationChecked {
                    exists: self.names.contains(&World::name_of(&path)),
                })
            }
            RenameAction::Planned => Ok(RenameEvent::Execute),
            RenameAction::Rename { from, to } => {
                let from_name = World::name_of(&from);
                let to_name = World::name_of(&to);
                if !self.names.contains(&from_name) {
                    return Ok(RenameEvent::Renamed(Err("No such file or directory".to_string())));
                }
                self.names.remove(&from_name);
                self.names.insert(to_name.clone());
                self.renames.push((from_name, to_name));
                Ok(RenameEvent::Renamed(Ok(())))
            }
            other => Err(other),
        }
    }
}

/// Runs a batch towards the readable scheme to its end.
fn run_to_readable(
    world: &mut World,
    cache: &mut CacheStore,
    names: &[&str],
    api_config: &ApiConfig,
    options: &RenameOptions,
) -> Result<RenameResult, RenameError> {
    let entries: Vec<DirectoryEntry> = names.iter().map(|n| make_entry(n)).collect();
    let validation = validate_directories(&entries).unwrap();
    let mut transaction = rename_to_readable(TARGET, &validation, api_config, options);
    assert_eq!(transaction.phase(), RenamePhase::Idle);
    let mut event = RenameEvent::Start { client_error: None };
    loop {
        let action = transaction.step(cache, event, now());
        match world.perform(action) {
            Ok(next) => event = next,
            Err(RenameAction::Finish) => {
                assert_eq!(transaction.phase(), RenamePhase::Committed);
                return Ok(transaction.into_result());
            }
            Err(RenameAction::Abort(e)) => {
                assert_eq!(transaction.phase(), RenamePhase::Aborted);
                return Err(e);
            }
            Err(other) => panic!("unexpected action {:?}", other),
        }
    }
}

/// Runs a batch towards the compact scheme to its end.
fn run_to_anidb(world: &mut World, names: &[&str], dry_run: bool) -> Result<RenameResult, RenameError> {
    let entries: Vec<DirectoryEntry> = names.iter().map(|n| make_entry(n)).collect();
    let validation = validate_directories(&entries).unwrap();
    let mut transaction = rename_to_anidb(TARGET, &validation, dry_run);
    let mut event = RenameEvent::Start { client_error: None };
    loop {
        let action = transaction.step(event);
        match world.perform(action) {
            Ok(next) => event = next,
            Err(RenameAction::Finish) => {
                assert_eq!(transaction.phase(), RenamePhase::Committed);
                return Ok(transaction.into_result());
            }
            Err(RenameAction::Abort(e)) => {
                assert_eq!(transaction.phase(), RenamePhase::Aborted);
                return Err(e);
            }
            Err(other) => panic!("unexpected action {:?}", other),
        }
    }
}

#[test]
fn test_rename_options_default() {
    let opts = RenameOptions::default();
    assert_eq!(opts.max_length, 255);
    assert!(!opts.dry_run);
    assert_eq!(opts.cache_expiry_days, 30);
}

#[test]
fn test_prepare_rename_requires_api_when_not_cached() {
    let mut world = World::new(&["12345"]);
    let mut cache = fresh_cache();

    // Without API client and not in dry run mode, should fail
    let result = run_to_readable(
        &mut world,
        &mut cache,
        &["12345"],
        &ApiConfig::default(),
        &RenameOptions::default(),
    );

    assert!(matches!(result, Err(RenameError::ApiNotConfigured)));
    assert!(world.fetches.is_empty());
    assert!(world.renames.is_empty());
}

#[test]
fn test_prepare_rename_dry_run_uses_placeholder() {
    let mut world = World::new(&["12345"]);
    let mut cache = fresh_cache();
    let options = RenameOptions {
        dry_run: true,
        ..Default::default()
    };

    // In dry run mode without cache, should use placeholder
    let result = run_to_readable(
        &mut world,
        &mut cache,
        &["12345"],
        &ApiConfig::new("testclient", 1),
        &options,
    );

    assert!(result.is_ok());
    let result = result.unwrap();
    let op = &result.operations[0];
    assert!(op.destination_name.contains("[Title for anidb-12345]"));
    assert_eq!(op.destination_name, "[Title for anidb-12345] [catalog-12345]");
    // A dry run asks for nothing outside.
    assert!(world.fetches.is_empty());
    assert!(world.renames.is_empty());
    assert_eq!(world.checks, 0);
    assert!(cache.is_empty());
    assert!(cache.save().is_none());
}

#[test]
fn test_prepare_rename_uses_cache() {
    let mut world = World::new(&["[X] 12345"]);

    // Pre-populate cache
    let mut cache = cache_with(&[AnimeInfo {
        anidb_id: 12345,
        title_main: "Test Anime".to_string(),
        title_en: Some("Test Anime EN".to_string()),
        release_year: Some(2020),
    }]);

    // Should succeed using cache (no API client needed)
    let result = run_to_readable(
        &mut world,
        &mut cache,
        &["[X] 12345"],
        &ApiConfig::default(),
        &RenameOptions::default(),
    );

    assert!(result.is_ok());
    let result = result.unwrap();
    let op = &result.operations[0];
    assert_eq!(op.anidb_id, 12345);
    assert!(op.destination_name.contains("Test Anime"));
    assert!(op.destination_name.contains("[X]"));
    assert!(op.destination_name.contains("[catalog-12345]"));
    assert!(world.fetches.is_empty());
}

#[test]
fn test_rename_dry_run_no_filesystem_changes() {
    let mut world = World::new(&["12345"]);

    // Pre-populate cache so we don't need API
    let mut cache = cache_with(&[test_anime()]);

    let options = RenameOptions {
        dry_run: true,
        ..Default::default()
    };

    let result = run_to_readable(
        &mut world,
        &mut cache,
        &["12345"],
        &ApiConfig::default(),
        &options,
    );

    assert!(result.is_ok());
    let result = result.unwrap();
    assert_eq!(result.len(), 1);
    assert!(result.dry_run);
    assert_eq!(result.operations[0].destination_name, "Test Anime (2020) [catalog-12345]");

    // Original directory should still exist
    assert!(world.holds("12345"));
    assert!(world.renames.is_empty());
}

#[test]
fn test_rename_actual_execution() {
    let mut world = World::new(&["12345"]);

    // Pre-populate cache
    let mut cache = cache_with(&[test_anime()]);

    let options = RenameOptions {
        dry_run: false,
        ..Default::default()
    };

    let result = run_to_readable(
        &mut world,
        &mut cache,
        &["12345"],
        &ApiConfig::default(),
        &options,
    );

    assert!(result.is_ok());
    let result = result.unwrap();
    assert_eq!(result.len(), 1);
    assert!(!result.dry_run);
    assert_eq!(result.direction, RenameDirection::AniDbToReadable);
    assert_eq!(result.operations[0].source_path, "/anime/12345");
    assert_eq!(result.operations[0].source_name, "12345");
    assert_eq!(
        result.operations[0].destination_path,
        "/anime/Test Anime (2020) [catalog-12345]"
    );

    // Original directory should NOT exist
    assert!(!world.holds("12345"));

    // New directory should exist
    assert!(world.holds("Test Anime (2020) [catalog-12345]"));
}

#[test]
fn test_rename_preserves_series_tag() {
    let mut world = World::new(&["[AS0] 12345"]);

    // Pre-populate cache
    let mut cache = cache_with(&[test_anime()]);

    let options = RenameOptions {
        dry_run: false,
        ..Default::default()
    };

    let result = run_to_readable(
        &mut world,
        &mut cache,
        &["[AS0] 12345"],
        &ApiConfig::default(),
        &options,
    );

    assert!(result.is_ok());

    // New directory should have series tag
    assert!(world.holds("[AS0] Test Anime (2020) [catalog-12345]"));
}

#[test]
fn test_rename_error_destination_exists() {
    // Source and destination directories are there
    let mut world = World::new(&["12345", "Test Anime (2020) [catalog-12345]"]);

    // Pre-populate cache
    let mut cache = cache_with(&[test_anime()]);

    let options = RenameOptions {
        dry_run: false,
        ..Default::default()
    };

    let result = run_to_readable(
        &mut world,
        &mut cache,
        &["12345"],
        &ApiConfig::default(),
        &options,
    );

    assert!(matches!(result, Err(RenameError::DestinationExists(_))));
    if let Err(RenameError::DestinationExists(name)) = result {
        assert_eq!(name, "Test Anime (2020) [catalog-12345]");
    }
    assert!(world.renames.is_empty());
}

#[test]
fn test_collision_aborts_before_any_rename() {
    // The second destination is taken: nothing of the batch is renamed.
    let mut world = World::new(&["1", "2", "Two [catalog-2]"]);
    let mut cache = cache_with(&[
        AnimeInfo { anidb_id: 1, title_main: "One".to_string(), title_en: None, release_year: None },
        AnimeInfo { anidb_id: 2, title_main: "Two".to_string(), title_en: None, release_year: None },
    ]);

    let result = run_to_readable(
        &mut world,
        &mut cache,
        &["1", "2"],
        &ApiConfig::default(),
        &RenameOptions::default(),
    );

    assert!(matches!(result, Err(RenameError::DestinationExists(_))));
    assert!(world.renames.is_empty());
    assert!(world.holds("1"));
    assert!(world.holds("2"));
}

#[test]
fn test_fetch_fills_cache_and_renames_in_order() {
    let mut world = World::new(&["1", "[T] 2"]);
    world.provider = vec![
        AnimeInfo { anidb_id: 1, title_main: "One".to_string(), title_en: None, release_year: Some(2001) },
        AnimeInfo { anidb_id: 2, title_main: "Two".to_string(), title_en: Some("Zwei".to_string()), release_year: None },
    ];
    let mut cache = fresh_cache();

    let result = run_to_readable(
        &mut world,
        &mut cache,
        &["1", "[T] 2"],
        &ApiConfig::new("testclient", 1),
        &RenameOptions::default(),
    )
    .unwrap();

    assert_eq!(world.fetches, vec![1, 2]);
    assert_eq!(
        world.renames,
        vec![
            ("1".to_string(), "One (2001) [catalog-1]".to_string()),
            ("[T] 2".to_string(), "[T] Two ／ Zwei [catalog-2]".to_string()),
        ]
    );
    assert_eq!(result.len(), 2);
    assert_eq!(cache.len(), 2);
    assert_eq!(cache.get(2, &now()).unwrap().title_main, "Two");
    assert!(cache.save().is_some());
}

#[test]
fn test_provider_failure_aborts_whole_batch() {
    let mut world = World::new(&["1", "2"]);
    world.provider = vec![AnimeInfo {
        anidb_id: 1,
        title_main: "One".to_string(),
        title_en: None,
        release_year: None,
    }];
    let mut cache = fresh_cache();

    let result = run_to_readable(
        &mut world,
        &mut cache,
        &["1", "2"],
        &ApiConfig::new("testclient", 1),
        &RenameOptions::default(),
    );

    match result {
        Err(RenameError::ApiError { id, message }) => {
            assert_eq!(id, 2);
            assert_eq!(message, "Anime not found: 2");
        }
        other => panic!("expected a provider failure, got {:?}", other),
    }
    // Nothing was renamed, though the first entry was prepared.
    assert!(world.renames.is_empty());
    assert!(world.holds("1"));
    assert_eq!(cache.len(), 1);
}

#[test]
fn test_client_error_aborts_at_start() {
    let entries = vec![make_entry("1")];
    let validation = validate_directories(&entries).unwrap();
    let mut cache = fresh_cache();

    let mut transaction = rename_to_readable(
        TARGET,
        &validation,
        &ApiConfig::new("testclient", 1),
        &RenameOptions::default(),
    );
    let action = transaction.step(
        &mut cache,
        RenameEvent::Start { client_error: Some("no TLS backend".to_string()) },
        now(),
    );
    match action {
        RenameAction::Abort(RenameError::ApiError { id, message }) => {
            assert_eq!(id, 0);
            assert_eq!(message, "no TLS backend");
        }
        other => panic!("expected an abort, got {:?}", other),
    }
    assert_eq!(transaction.phase(), RenamePhase::Aborted);

    // Without a configured provider no client is made, and its error is of no account.
    let mut transaction =
        rename_to_readable(TARGET, &validation, &ApiConfig::default(), &RenameOptions::default());
    let action = transaction.step(
        &mut cache,
        RenameEvent::Start { client_error: Some("no TLS backend".to_string()) },
        now(),
    );
    assert!(matches!(action, RenameAction::Abort(RenameError::ApiNotConfigured)));
}

#[test]
fn test_unexpected_event_is_rejected() {
    let entries = vec![make_entry("12345")];
    let validation = validate_directories(&entries).unwrap();
    let mut cache = cache_with(&[test_anime()]);
    let mut transaction =
        rename_to_readable(TARGET, &validation, &ApiConfig::default(), &RenameOptions::default());

    // Nothing was asked for yet.
    assert!(matches!(
        transaction.step(&mut cache, RenameEvent::Execute, now()),
        RenameAction::Rejected
    ));
    assert!(matches!(
        transaction.step(&mut cache, RenameEvent::Renamed(Ok(())), now()),
        RenameAction::Rejected
    ));
    assert_eq!(transaction.phase(), RenamePhase::Idle);

    let action = transaction.step(&mut cache, RenameEvent::Start { client_error: None }, now());
    assert!(matches!(action, RenameAction::CheckDestination { .. }));

    // A check is awaited, not metadata.
    assert!(matches!(
        transaction.step(&mut cache, RenameEvent::Metadata(Ok(test_anime())), now()),
        RenameAction::Rejected
    ));
    assert_eq!(transaction.phase(), RenamePhase::Preparing);

    let action =
        transaction.step(&mut cache, RenameEvent::DestinationChecked { exists: false }, now());
    assert!(matches!(action, RenameAction::Planned));
    assert_eq!(transaction.phase(), RenamePhase::Prepared);
    assert_eq!(transaction.outcome().len(), 1);

    let action = transaction.step(&mut cache, RenameEvent::Execute, now());
    match action {
        RenameAction::Rename { from, to } => {
            assert_eq!(from, "/anime/12345");
            assert_eq!(to, "/anime/Test Anime (2020) [catalog-12345]");
        }
        other => panic!("expected a rename, got {:?}", other),
    }
    assert_eq!(transaction.phase(), RenamePhase::Executing);

    let action = transaction.step(
        &mut cache,
        RenameEvent::Renamed(Err("Permission denied".to_string())),
        now(),
    );
    match action {
        RenameAction::Abort(RenameError::FilesystemError { from, to, source }) => {
            assert_eq!(from, "12345");
            assert_eq!(to, "Test Anime (2020) [catalog-12345]");
            assert_eq!(source, "Permission denied");
        }
        other => panic!("expected an abort, got {:?}", other),
    }
    assert_eq!(transaction.phase(), RenamePhase::Aborted);
    assert!(matches!(
        transaction.step(&mut cache, RenameEvent::Execute, now()),
        RenameAction::Rejected
    ));
}

#[test]
fn test_expired_cache_entry_is_fetched_again() {
    let mut world = World::new(&["12345"]);
    world.provider = vec![AnimeInfo {
        anidb_id: 12345,
        title_main: "Fresh Title".to_string(),
        title_en: None,
        release_year: None,
    }];
    let mut cache = fresh_cache();
    cache.insert(&test_anime(), Timestamp::new(1_768_473_045 - 31 * 86_400, 0).unwrap());

    let result = run_to_readable(
        &mut world,
        &mut cache,
        &["12345"],
        &ApiConfig::new("testclient", 1),
        &RenameOptions::default(),
    )
    .unwrap();

    assert_eq!(world.fetches, vec![12345]);
    assert_eq!(result.operations[0].destination_name, "Fresh Title [catalog-12345]");
}

#[test]
fn test_rename_error_messages() {
    assert_eq!(
        RenameError::ApiError { id: 7, message: "Request timeout".to_string() }.message(),
        "Failed to fetch anime data for ID 7: Request timeout"
    );
    assert_eq!(
        RenameError::FilesystemError {
            from: "a".to_string(),
            to: "b".to_string(),
            source: "denied".to_string()
        }
        .message(),
        "Failed to rename 'a' to 'b': denied"
    );
    assert_eq!(
        RenameError::DestinationExists("b".to_string()).message(),
        "Destination already exists: b"
    );
    assert_eq!(RenameError::ApiNotConfigured.message(), "API client not configured");
    assert_eq!(RenameError::CacheError("x".to_string()).message(), "Cache error: x");
    match RenameError::from_api(&ApiError::RateLimited) {
        RenameError::ApiError { id, message } => {
            assert_eq!(id, 0);
            assert_eq!(message, "Rate limited by AniDB");
        }
        other => panic!("unexpected {:?}", other),
    }
}

#[test]
fn test_placeholder_info() {
    let info = placeholder_info(12345);
    assert_eq!(info.anidb_id, 12345);
    assert_eq!(info.title_main, "[Title for anidb-12345]");
    assert_eq!(info.title_en, None);
    assert_eq!(info.release_year, None);
}

// ============ Towards the compact scheme ============

#[test]
fn test_rename_to_anidb_execution() {
    let names = ["Naruto (2002) [catalog-12345]", "[AS0] Cowboy Bebop (1998) [catalog-1]"];
    let mut world = World::new(&names);

    let result = run_to_anidb(&mut world, &names, false).unwrap();

    assert_eq!(result.direction, RenameDirection::ReadableToAniDb);
    assert_eq!(result.len(), 2);
    assert_eq!(result.truncated_count(), 0);
    assert_eq!(
        world.renames,
        vec![
            ("Naruto (2002) [catalog-12345]".to_string(), "12345".to_string()),
            ("[AS0] Cowboy Bebop (1998) [catalog-1]".to_string(), "[AS0] 1".to_string()),
        ]
    );
    assert!(world.holds("12345"));
    assert!(world.holds("[AS0] 1"));
}

#[test]
fn test_rename_to_anidb_dry_run() {
    let names = ["Naruto (2002) [catalog-12345]"];
    let mut world = World::new(&names);

    let result = run_to_anidb(&mut world, &names, true).unwrap();

    assert!(result.dry_run);
    assert_eq!(result.operations[0].destination_name, "12345");
    assert!(world.renames.is_empty());
    assert_eq!(world.checks, 0);
    assert!(world.holds("Naruto (2002) [catalog-12345]"));
}

#[test]
fn test_rename_to_anidb_collision_stops_batch() {
    let names = ["A [catalog-1]", "B [catalog-2]"];
    let mut world = World::new(&["A [catalog-1]", "B [catalog-2]", "2"]);

    let result = run_to_anidb(&mut world, &names, false);

    match result {
        Err(RenameError::FilesystemError { from, to, source }) => {
            assert_eq!(from, "B [catalog-2]");
            assert_eq!(to, "2");
            assert_eq!(source, "Destination already exists");
        }
        other => panic!("expected a collision, got {:?}", other),
    }
    // Every destination is checked before the first rename: nothing was renamed.
    assert!(world.renames.is_empty());
    assert!(world.holds("A [catalog-1]"));
    assert!(!world.holds("1"));
    assert!(world.holds("B [catalog-2]"));
}

#[test]
fn test_rename_to_anidb_checks_every_destination_before_renaming() {
    let names = ["A [catalog-1]", "B [catalog-2]"];
    let entries: Vec<DirectoryEntry> = names.iter().map(|n| make_entry(n)).collect();
    let validation = validate_directories(&entries).unwrap();
    let mut transaction = rename_to_anidb(TARGET, &validation, false);

    let first = transaction.step(RenameEvent::Start { client_error: None });
    assert!(matches!(first, RenameAction::CheckDestination { .. }));
    assert_eq!(transaction.phase(), RenamePhase::Preparing);
    // A rename is answered only while the batch is run.
    assert!(matches!(transaction.step(RenameEvent::Renamed(Ok(()))), RenameAction::Rejected));
    let second = transaction.step(RenameEvent::DestinationChecked { exists: false });
    assert!(matches!(second, RenameAction::CheckDestination { .. }));
    let planned = transaction.step(RenameEvent::DestinationChecked { exists: false });
    assert!(matches!(planned, RenameAction::Planned));
    assert_eq!(transaction.phase(), RenamePhase::Prepared);
    assert_eq!(transaction.outcome().len(), 2);

    match transaction.step(RenameEvent::Execute) {
        RenameAction::Rename { from, to } => {
            assert!(from.ends_with("A [catalog-1]"), "{}", from);
            assert!(to.ends_with("1"), "{}", to);
        }
        other => panic!("expected a rename, got {:?}", other),
    }
    assert_eq!(transaction.phase(), RenamePhase::Executing);
    // No destination is checked any more.
    assert!(matches!(
        transaction.step(RenameEvent::DestinationChecked { exists: true }),
        RenameAction::Rejected
    ));
    assert!(matches!(transaction.step(RenameEvent::Renamed(Ok(()))), RenameAction::Rename { .. }));
    match transaction.step(RenameEvent::Renamed(Err("denied".to_string()))) {
        RenameAction::Abort(RenameError::FilesystemError { from, to, source }) => {
            assert_eq!(from, "B [catalog-2]");
            assert_eq!(to, "2");
            assert_eq!(source, "denied");
        }
        other => panic!("expected a failure, got {:?}", other),
    }
    assert_eq!(transaction.phase(), RenamePhase::Aborted);
}
