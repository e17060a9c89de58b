use anidb2folder::error::{AppError, ExitCode};
use anidb2folder::scanner::ScannerError;

#[test]
fn test_exit_code_values() {
    assert_eq!(ExitCode::Success as i32, 0);
    assert_eq!(ExitCode::GeneralError as i32, 1);
    assert_eq!(ExitCode::InvalidArguments as i32, 2);
    assert_eq!(ExitCode::DirectoryNotFound as i32, 3);
    assert_eq!(ExitCode::MixedFormats as i32, 4);
    assert_eq!(ExitCode::UnrecognizedFormat as i32, 5);
    assert_eq!(ExitCode::ApiError as i32, 6);
    assert_eq!(ExitCode::PermissionError as i32, 7);
    assert_eq!(ExitCode::HistoryError as i32, 8);
    assert_eq!(ExitCode::RenameError as i32, 9);
    assert_eq!(ExitCode::CacheError as i32, 10);
}

#[test]
fn test_exit_code_into_i32() {
    let code: i32 = ExitCode::DirectoryNotFound.into();
    assert_eq!(code, 3);
}

#[test]
fn test_exit_codes() {
    let err = AppError::DirectoryNotFound {
        path: "/test".to_string(),
    };
    assert_eq!(err.exit_code(), ExitCode::DirectoryNotFound);

    let err = AppError::MixedFormats {
        anidb_count: 1,
        readable_count: 1,
        anidb_examples: vec![],
        readable_examples: vec![],
    };
    assert_eq!(err.exit_code(), ExitCode::MixedFormats);

    let err = AppError::PermissionDenied {
        path: "/test".to_string(),
    };
    assert_eq!(err.exit_code(), ExitCode::PermissionError);
}

#[test]
fn test_detailed_message_includes_context() {
    let err = AppError::UnrecognizedFormat {
        directories: vec!["dir1".to_string(), "dir2".to_string()],
    };

    let msg = err.detailed_message();
    assert!(msg.contains("dir1"));
    assert!(msg.contains("dir2"));
    assert!(msg.contains("Expected formats"));
}

#[test]
fn test_scanner_error_conversion() {
    let scanner_err = ScannerError::PathNotFound("/missing".to_string());
    let app_err: AppError = scanner_err.into();
    assert_eq!(app_err.exit_code(), ExitCode::DirectoryNotFound);
}

use anidb2folder::api::ApiError;
use anidb2folder::cache::CacheError;
use anidb2folder::rename::RenameError;
use anidb2folder::revert::RevertError;
use anidb2folder::validator::{FormatMismatch, ValidationError};

#[test]
fn test_every_exit_code() {
    let path = || "/test".to_string();
    let cases: Vec<(AppError, ExitCode, i32)> = vec![
        (AppError::DirectoryNotFound { path: path() }, ExitCode::DirectoryNotFound, 3),
        (AppError::NotADirectory { path: path() }, ExitCode::DirectoryNotFound, 3),
        (AppError::PermissionDenied { path: path() }, ExitCode::PermissionError, 7),
        (
            AppError::MixedFormats {
                anidb_count: 1,
                readable_count: 1,
                anidb_examples: vec![],
                readable_examples: vec![],
            },
            ExitCode::MixedFormats,
            4,
        ),
        (AppError::UnrecognizedFormat { directories: vec![] }, ExitCode::UnrecognizedFormat, 5),
        (AppError::ApiError { anidb_id: 1, message: String::new() }, ExitCode::ApiError, 6),
        (AppError::HistoryError { path: None, message: String::new() }, ExitCode::HistoryError, 8),
        (
            AppError::RenameError { from: path(), to: path(), source: String::new() },
            ExitCode::RenameError,
            9,
        ),
        (AppError::CacheError { message: String::new() }, ExitCode::CacheError, 10),
        (AppError::Other(String::new()), ExitCode::GeneralError, 1),
    ];
    for (err, code, number) in cases {
        assert_eq!(err.exit_code(), code);
        assert_eq!(err.exit_code().code(), number);
        assert_eq!(i32::from(err.exit_code()), number);
    }
    assert_eq!(ExitCode::Success.code(), 0);
    assert_eq!(ExitCode::InvalidArguments.code(), 2);
}

#[test]
fn test_detailed_messages_are_exact() {
    assert_eq!(
        AppError::DirectoryNotFound { path: "/a".to_string() }.detailed_message(),
        "The specified directory does not exist:\n  /a\n\nPlease verify the path and try again."
    );
    assert_eq!(
        AppError::HistoryError { path: Some("/h.json".to_string()), message: "bad".to_string() }
            .detailed_message(),
        "History file error:\n  bad\nFile: /h.json\n\nEnsure the history file exists and is valid JSON."
    );
    assert_eq!(
        AppError::HistoryError { path: None, message: "bad".to_string() }.detailed_message(),
        "History file error:\n  bad\n\nEnsure the history file exists and is valid JSON."
    );
    assert_eq!(
        AppError::RenameError {
            from: "a".to_string(),
            to: "b".to_string(),
            source: "denied".to_string()
        }
        .detailed_message(),
        "Failed to rename directory:\nFrom: a\nTo:   b\nError: denied\n\nCheck file permissions and ensure no files are open."
    );
    assert_eq!(AppError::Other("plain".to_string()).detailed_message(), "plain");

    // At most three examples of each scheme.
    let names = |n: usize| (1..=n).map(|i| format!("n{}", i)).collect::<Vec<_>>();
    let err = AppError::MixedFormats {
        anidb_count: 5,
        readable_count: 1,
        anidb_examples: names(5),
        readable_examples: names(1),
    };
    assert_eq!(
        err.detailed_message(),
        "Found directories in multiple formats:\n- 5 in AniDB format\n- 1 in human-readable format\n\n\
         AniDB format examples:\n  - n1\n  - n2\n  - n3\n\
         \nHuman-readable format examples:\n  - n1\n\
         \nAll directories must be in the same format.\n\
         Manually rename mixed directories before running again."
    );

    // At most ten names, and how many more there are.
    let msg = AppError::UnrecognizedFormat { directories: names(12) }.detailed_message();
    assert!(msg.contains("  - n10\n  ... and 2 more\n\nExpected formats:\n"));
    assert!(!msg.contains("n11"));
    let msg = AppError::UnrecognizedFormat { directories: names(10) }.detailed_message();
    assert!(msg.contains("  - n10\n\nExpected formats:\n"));
    assert!(!msg.contains("more"));
}

#[test]
fn test_error_conversions() {
    let err: AppError = ValidationError::NoDirectories.into();
    assert_eq!(err.detailed_message(), "No subdirectories found in target");
    assert_eq!(err.exit_code(), ExitCode::GeneralError);

    let err: AppError = ValidationError::MixedFormats {
        mismatch: FormatMismatch {
            anidb_dirs: vec!["1".to_string(), "2".to_string()],
            human_readable_dirs: vec!["T [catalog-3]".to_string()],
        },
    }
    .into();
    match err {
        AppError::MixedFormats { anidb_count, readable_count, anidb_examples, .. } => {
            assert_eq!(anidb_count, 2);
            assert_eq!(readable_count, 1);
            assert_eq!(anidb_examples.len(), 2);
        }
        other => panic!("unexpected {:?}", other),
    }

    let err: AppError = ApiError::NotFound(7).into();
    assert_eq!(err.message(), "API error for anime 7: Anime not found");
    let err: AppError = ApiError::MaxRetriesExceeded { attempts: 3 }.into();
    assert_eq!(err.message(), "API error for anime 0: Max retries (3) exceeded");
    let err: AppError = ApiError::NetworkError("reset".to_string()).into();
    assert_eq!(err.message(), "API error for anime 0: Network error: reset");

    let err: AppError = CacheError::Corrupted.into();
    assert_eq!(err.message(), "Cache error: Cache file corrupted");
    assert_eq!(err.exit_code(), ExitCode::CacheError);

    let err: AppError = ScannerError::IoError("broken".to_string()).into();
    assert_eq!(err.message(), "I/O error: broken");

    let err: AppError = RenameError::DestinationExists("b".to_string()).into();
    assert_eq!(err.exit_code(), ExitCode::RenameError);
    assert_eq!(err.message(), "Rename failed:  -> b");
    let err: AppError = RenameError::ApiError { id: 9, message: "gone".to_string() }.into();
    assert_eq!(err.message(), "API error for anime 9: gone");
    let err: AppError = RenameError::ApiNotConfigured.into();
    assert_eq!(err.exit_code(), ExitCode::ApiError);

    let err: AppError = RevertError::ValidationFailed("a; b".to_string()).into();
    assert_eq!(err.message(), "Revert failed: Validation failed: a; b");
    assert_eq!(err.exit_code(), ExitCode::GeneralError);
}
