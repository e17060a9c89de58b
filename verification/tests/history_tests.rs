use anidb2folder::history::{
    read_history, validate_for_revert, write_history, write_history_file, HistoryDirection,
    HistoryEntry, HistoryError, HistoryFile, OperationType, ReadFailure, HISTORY_VERSION,
};
use anidb2folder::rename::{RenameDirection, RenameOperation, RenameResult};
use anidb2folder::timestamp::Timestamp;

fn at(text: &str) -> Timestamp {
    let parsed = chrono::DateTime::parse_from_rfc3339(text).unwrap();
    Timestamp::new(parsed.timestamp(), parsed.timestamp_subsec_nanos()).unwrap()
}

fn create_test_history() -> HistoryFile {
    HistoryFile {
        version: HISTORY_VERSION.to_string(),
        executed_at: at("2026-01-15T10:30:45Z"),
        operation: OperationType::Rename,
        direction: HistoryDirection::AnidbToReadable,
        target_directory: "/test/anime".to_string(),
        tool_version: "0.1.0".to_string(),
        changes: vec![HistoryEntry {
            source: "12345".to_string(),
            destination: "Anime (2020) [catalog-12345]".to_string(),
            anidb_id: 12345,
            truncated: false,
        }],
    }
}

fn create_test_result() -> RenameResult {
    let mut result = RenameResult::new(RenameDirection::AniDbToReadable, false);
    result.add_operation(RenameOperation::new(
        "/anime/12345".to_string(),
        "Anime (2020) [catalog-12345]".to_string(),
        12345,
        false,
    ));
    result.add_operation(RenameOperation::new(
        "/anime/67890".to_string(),
        "Another Anime… [catalog-67890]".to_string(),
        67890,
        true,
    ));
    result
}

// ============ Types ============

#[test]
fn test_generate_filename() {
    let history = HistoryFile {
        version: HISTORY_VERSION.to_string(),
        executed_at: at("2026-01-15T10:30:45Z"),
        operation: OperationType::Rename,
        direction: HistoryDirection::AnidbToReadable,
        target_directory: "/test".to_string(),
        tool_version: "0.1.0".to_string(),
        changes: vec![],
    };

    assert_eq!(
        history.generate_filename(),
        "anidb2folder-history-20260115-103045.json"
    );
}

#[test]
fn test_generate_unique_and_revert_filename() {
    let mut history = create_test_history();
    history.executed_at = at("2026-01-15T10:30:45.067Z");

    assert_eq!(
        history.generate_filename(),
        "anidb2folder-history-20260115-103045.json"
    );
    assert_eq!(
        history.generate_unique_filename(),
        "anidb2folder-history-20260115-103045-67.json"
    );
    assert_eq!(
        history.generate_revert_filename(&at("2026-02-01T00:00:01Z")),
        "anidb2folder-history-20260201-000001.json"
    );
}

#[test]
fn test_history_direction_description() {
    assert_eq!(
        HistoryDirection::AnidbToReadable.description(),
        "AniDB -> Human-readable"
    );
    assert_eq!(
        HistoryDirection::ReadableToAnidb.description(),
        "Human-readable -> AniDB"
    );
}

#[test]
fn test_operation_type_serialization() {
    assert_eq!(
        format!("\"{}\"", OperationType::Rename.wire_name()),
        "\"rename\""
    );
    assert_eq!(
        format!("\"{}\"", OperationType::Revert.wire_name()),
        "\"revert\""
    );
}

#[test]
fn test_direction_serialization() {
    assert_eq!(
        format!("\"{}\"", HistoryDirection::AnidbToReadable.wire_name()),
        "\"catalog_to_readable\""
    );
    assert_eq!(
        format!("\"{}\"", HistoryDirection::ReadableToAnidb.wire_name()),
        "\"readable_to_catalog\""
    );
}

#[test]
fn test_direction_reversed() {
    assert_eq!(
        HistoryDirection::AnidbToReadable.reversed(),
        HistoryDirection::ReadableToAnidb
    );
    assert_eq!(
        HistoryDirection::ReadableToAnidb.reversed(),
        HistoryDirection::AnidbToReadable
    );
    assert_eq!(
        RenameDirection::AniDbToReadable.reversed(),
        RenameDirection::ReadableToAniDb
    );
    assert_eq!(
        RenameDirection::ReadableToAniDb.reversed(),
        RenameDirection::AniDbToReadable
    );
}

// ============ Reader ============

#[test]
fn test_read_history() {
    let history = create_test_history();

    // Read it back
    let loaded = read_history(Ok(history)).unwrap();

    assert_eq!(loaded.version, HISTORY_VERSION);
    assert_eq!(loaded.changes.len(), 1);
    assert_eq!(loaded.changes[0].anidb_id, 12345);
}

#[test]
fn test_read_nonexistent_file() {
    let result = read_history(Err(ReadFailure::CannotOpen(
        "No such file or directory (os error 2)".to_string(),
    )));
    assert!(matches!(result, Err(HistoryError::ReadError(_))));
    if let Err(HistoryError::ReadError(m)) = result {
        assert_eq!(m, "Cannot open file: No such file or directory (os error 2)");
    }
}

#[test]
fn test_read_invalid_json() {
    let result = read_history(Err(ReadFailure::InvalidJson(
        "expected ident at line 1 column 2".to_string(),
    )));
    assert!(matches!(result, Err(HistoryError::ReadError(_))));
    if let Err(HistoryError::ReadError(m)) = result {
        assert_eq!(m, "Invalid JSON: expected ident at line 1 column 2");
    }
}

#[test]
fn test_version_mismatch() {
    let mut history = create_test_history();
    history.version = "99.0".to_string();
    history.executed_at = at("2026-01-01T00:00:00Z");
    history.target_directory = "/test".to_string();
    history.changes = vec![];

    let result = read_history(Ok(history));
    assert!(matches!(
        result,
        Err(HistoryError::VersionMismatch { .. })
    ));
    if let Err(HistoryError::VersionMismatch { expected, found }) = result {
        assert_eq!(expected, "1.0");
        assert_eq!(found, "99.0");
    }
}

#[test]
fn test_validate_for_revert_success() {
    let history = create_test_history();
    let result = validate_for_revert(&history, "/test/anime");
    assert!(result.is_ok());
}

#[test]
fn test_validate_for_revert_same_path_written_otherwise() {
    let history = create_test_history();
    assert!(validate_for_revert(&history, "/test/anime/").is_ok());
    assert!(validate_for_revert(&history, "/test//anime").is_ok());
}

#[test]
fn test_validate_for_revert_wrong_directory() {
    let history = create_test_history();
    let result = validate_for_revert(&history, "/different/path");
    assert!(matches!(result, Err(HistoryError::ReadError(_))));
    if let Err(HistoryError::ReadError(m)) = result {
        assert_eq!(m, "History file is for different directory: \"/test/anime\"");
    }
}

// ============ Writer ============

#[test]
fn test_write_history() {
    let result = create_test_result();
    let executed_at = at("2026-01-15T10:30:45Z");

    let history = write_history(&result, "/anime", executed_at, "0.1.0");
    let plan = write_history_file(&history, "/anime", false);

    assert!(plan.path.contains("anidb2folder-history-"));
    assert!(plan.path.ends_with(".json"));
    assert_eq!(plan.path, "/anime/anidb2folder-history-20260115-103045.json");
}

#[test]
fn test_history_content() {
    let result = create_test_result();

    let history = write_history(&result, "/anime", at("2026-01-15T10:30:45Z"), "0.1.0");

    assert_eq!(history.version, HISTORY_VERSION);
    assert_eq!(history.operation, OperationType::Rename);
    assert_eq!(history.direction, HistoryDirection::AnidbToReadable);
    assert_eq!(history.target_directory, "/anime");
    assert_eq!(history.tool_version, "0.1.0");
    assert_eq!(history.changes.len(), 2);
    assert_eq!(history.changes[0].anidb_id, 12345);
    assert_eq!(history.changes[0].source, "12345");
    assert_eq!(history.changes[0].destination, "Anime (2020) [catalog-12345]");
    assert!(!history.changes[0].truncated);
    assert!(history.changes[1].truncated);
    assert_eq!(history.changes[1].source, "67890");
}

#[test]
fn writer_test_atomic_write() {
    let result = create_test_result();

    let history = write_history(&result, "/anime", at("2026-01-15T10:30:45Z"), "0.1.0");
    let plan = write_history_file(&history, "/anime", false);

    // The journal is written beside its place and then takes it
    assert_eq!(
        plan.temp_path,
        "/anime/anidb2folder-history-20260115-103045.json.tmp"
    );
    assert_ne!(plan.temp_path, plan.path);
}

#[test]
fn test_write_history_name_taken() {
    let result = create_test_result();

    let history = write_history(&result, "/anime", at("2026-01-15T10:30:45.250Z"), "0.1.0");
    let plan = write_history_file(&history, "/anime", true);

    assert_eq!(plan.path, "/anime/anidb2folder-history-20260115-103045-250.json");
    assert_eq!(
        plan.temp_path,
        "/anime/anidb2folder-history-20260115-103045-250.json.tmp"
    );
}

#[test]
fn test_history_error_messages() {
    assert_eq!(
        HistoryError::WriteError("disk full".to_string()).message(),
        "Failed to write history file: disk full"
    );
    assert_eq!(
        HistoryError::SerializeError("bad".to_string()).message(),
        "Failed to serialize history: bad"
    );
    assert_eq!(
        HistoryError::ReadError("gone".to_string()).message(),
        "Failed to read history file: gone"
    );
    assert_eq!(
        HistoryError::VersionMismatch {
            expected: "1.0".to_string(),
            found: "2.0".to_string()
        }
        .message(),
        "History file version mismatch: expected 1.0, found 2.0"
    );
}
