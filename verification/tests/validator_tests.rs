use anidb2folder::parser::DirectoryFormat;
use anidb2folder::scanner::DirectoryEntry;
use anidb2folder::validator::{
    quick_validate, validate_directories, FormatMismatch, ValidationError,
};

fn make_entry(name: &str) -> DirectoryEntry {
    DirectoryEntry {
        name: name.to_string(),
        path: format!("/test/{}", name),
    }
}

#[test]
fn test_validate_all_anidb() {
    let entries = vec![
        make_entry("12345"),
        make_entry("[AS0] 67890"),
        make_entry("[Series] 11111"),
    ];

    let result = validate_directories(&entries).unwrap();

    assert_eq!(result.format, DirectoryFormat::AniDb);
    assert_eq!(result.directories.len(), 3);
}

#[test]
fn test_validate_all_human_readable() {
    let entries = vec![
        make_entry("Naruto (2002) [catalog-12345]"),
        make_entry("[AS0] Cowboy Bebop (1998) [catalog-1]"),
        make_entry("One Piece [catalog-69]"),
    ];

    let result = validate_directories(&entries).unwrap();

    assert_eq!(result.format, DirectoryFormat::HumanReadable);
    assert_eq!(result.directories.len(), 3);
}

#[test]
fn test_validate_mixed_formats_error() {
    let entries = vec![
        make_entry("12345"),
        make_entry("Naruto (2002) [catalog-67890]"),
    ];

    let result = validate_directories(&entries);

    assert!(matches!(result, Err(ValidationError::MixedFormats { .. })));

    if let Err(ValidationError::MixedFormats { mismatch }) = result {
        assert_eq!(mismatch.anidb_dirs.len(), 1);
        assert_eq!(mismatch.human_readable_dirs.len(), 1);
    }
}

#[test]
fn test_validate_unrecognized_error() {
    let entries = vec![
        make_entry("12345"),
        make_entry("Random Folder"),
        make_entry("Another Invalid"),
    ];

    let result = validate_directories(&entries);

    assert!(matches!(
        result,
        Err(ValidationError::UnrecognizedDirectories { .. })
    ));

    if let Err(ValidationError::UnrecognizedDirectories { directories }) = result {
        assert_eq!(directories.len(), 2);
        assert!(directories.contains(&"Random Folder".to_string()));
        assert!(directories.contains(&"Another Invalid".to_string()));
    }
}

#[test]
fn test_validate_empty_error() {
    let entries: Vec<DirectoryEntry> = vec![];

    let result = validate_directories(&entries);

    assert!(matches!(result, Err(ValidationError::NoDirectories)));
}

#[test]
fn test_validate_single_directory() {
    let entries = vec![make_entry("[X] 99999")];

    let result = validate_directories(&entries).unwrap();

    assert_eq!(result.format, DirectoryFormat::AniDb);
    assert_eq!(result.directories.len(), 1);
}

#[test]
fn test_error_message_unrecognized() {
    let err = ValidationError::UnrecognizedDirectories {
        directories: vec!["Invalid1".to_string(), "Invalid2".to_string()],
    };

    let msg = err.format_error_message();

    assert!(msg.contains("Invalid1"));
    assert!(msg.contains("Invalid2"));
    assert!(msg.contains("Expected formats:"));
}

#[test]
fn test_error_message_mixed() {
    let err = ValidationError::MixedFormats {
        mismatch: FormatMismatch {
            anidb_dirs: vec!["12345".to_string()],
            human_readable_dirs: vec!["Title [catalog-1]".to_string()],
        },
    };

    let msg = err.format_error_message();

    assert!(msg.contains("12345"));
    assert!(msg.contains("Title [catalog-1]"));
    assert!(msg.contains("AniDB format"));
    assert!(msg.contains("Human-readable"));
}

#[test]
fn test_quick_validate() {
    let entries = vec![make_entry("12345"), make_entry("[S] 99")];

    let format = quick_validate(&entries).unwrap();

    assert_eq!(format, DirectoryFormat::AniDb);
}

#[test]
fn test_validate_two_compact_names() {
    let entries = vec![make_entry("12345"), make_entry("[AS0] 67890")];

    let result = validate_directories(&entries).unwrap();

    assert_eq!(result.format, DirectoryFormat::AniDb);
    assert_eq!(result.directories.len(), 2);
    assert!(result.directories[0].series_tag().is_none());
    assert_eq!(result.directories[0].anidb_id(), 12345);
    assert_eq!(result.directories[1].series_tag(), Some("AS0"));
    assert_eq!(result.directories[1].anidb_id(), 67890);
}

#[test]
fn test_validate_keeps_order_and_names_every_failure() {
    let entries = vec![
        make_entry("[B] 2"),
        make_entry("zzz"),
        make_entry("[A] 1"),
        make_entry("Title [catalog-3]"),
        make_entry("aaa"),
    ];

    match validate_directories(&entries) {
        Err(ValidationError::UnrecognizedDirectories { directories }) => {
            assert_eq!(directories, vec!["zzz".to_string(), "aaa".to_string()]);
        }
        _ => panic!("names in neither scheme are refused before mixed schemes"),
    }

    let entries = vec![
        make_entry("[B] 2"),
        make_entry("Title [catalog-3]"),
        make_entry("[A] 1"),
        make_entry("Other (2001) [catalog-4]"),
    ];
    match validate_directories(&entries) {
        Err(ValidationError::MixedFormats { mismatch }) => {
            assert_eq!(mismatch.anidb_dirs, vec!["[B] 2".to_string(), "[A] 1".to_string()]);
            assert_eq!(
                mismatch.human_readable_dirs,
                vec!["Title [catalog-3]".to_string(), "Other (2001) [catalog-4]".to_string()]
            );
        }
        _ => panic!("a batch in both schemes is refused"),
    }

    let entries = vec![make_entry("[B] 2"), make_entry("[A] 1"), make_entry("3")];
    let result = validate_directories(&entries).unwrap();
    let names: Vec<&str> = result.directories.iter().map(|d| d.original_name()).collect();
    assert_eq!(names, vec!["[B] 2", "[A] 1", "3"]);
}

#[test]
fn test_error_message_exact() {
    let err = ValidationError::UnrecognizedDirectories {
        directories: vec!["Invalid1".to_string(), "Invalid2".to_string()],
    };
    assert_eq!(
        err.format_error_message(),
        "The following directories do not match any known format:\n\
         \x20 - Invalid1\n\
         \x20 - Invalid2\n\
         \nExpected formats:\n\
         \x20 AniDB:          [<series>] <anidb_id>\n\
         \x20 Human-readable: [<series>] <title> (<year>) [catalog-<id>]\n"
    );

    let err = ValidationError::MixedFormats {
        mismatch: FormatMismatch {
            anidb_dirs: vec!["12345".to_string()],
            human_readable_dirs: vec!["Title [catalog-1]".to_string()],
        },
    };
    assert_eq!(
        err.format_error_message(),
        "Found directories in multiple formats. All directories must be in the same format.\n\n\
         AniDB format directories:\n\
         \x20 - 12345\n\
         \n\
         Human-readable format directories:\n\
         \x20 - Title [catalog-1]\n"
    );

    assert_eq!(
        ValidationError::NoDirectories.format_error_message(),
        "No subdirectories found in the target directory."
    );
}
