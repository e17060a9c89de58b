use anidb2folder::rename::{RenameDirection, RenameOperation, RenameResult};

#[test]
fn test_rename_direction_description() {
    assert_eq!(
        RenameDirection::AniDbToReadable.description(),
        "AniDB → Human-readable"
    );
    assert_eq!(
        RenameDirection::ReadableToAniDb.description(),
        "Human-readable → AniDB"
    );
}

#[test]
fn test_rename_operation_new() {
    let op = RenameOperation::new(
        "/anime/12345".to_string(),
        "Cowboy Bebop (1998) [catalog-1]".to_string(),
        1,
        false,
    );

    assert_eq!(op.source_name, "12345");
    assert_eq!(op.destination_name, "Cowboy Bebop (1998) [catalog-1]");
    assert_eq!(op.anidb_id, 1);
    assert!(!op.truncated);
    assert_eq!(
        op.destination_path,
        "/anime/Cowboy Bebop (1998) [catalog-1]"
    );
}

#[test]
fn test_rename_result() {
    let mut result = RenameResult::new(RenameDirection::AniDbToReadable, true);

    assert!(result.is_empty());
    assert_eq!(result.len(), 0);
    assert!(result.dry_run);

    result.add_operation(RenameOperation::new(
        "/anime/1".to_string(),
        "Test [catalog-1]".to_string(),
        1,
        false,
    ));

    result.add_operation(RenameOperation::new(
        "/anime/2".to_string(),
        "Truncated... [catalog-2]".to_string(),
        2,
        true,
    ));

    assert!(!result.is_empty());
    assert_eq!(result.len(), 2);
    assert_eq!(result.truncated_count(), 1);
}
