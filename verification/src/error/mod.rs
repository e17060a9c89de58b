//! The errors that reach the user, their exit codes and their reports.

mod codes;

use crate::api::ApiError;
use crate::cache::CacheError;
use crate::parser::opt_text;
use crate::rename::RenameError;
use crate::revert::RevertError;
use crate::scanner::ScannerError;
use crate::text::{
    chars_of, decimal_digits, extend_chars, extend_str, format_u32, format_usize, string_of,
};
use crate::validator::{bullet_list, push_bullets, texts, ValidationError};
use vstd::prelude::*;
use vstd::std_specs::convert::FromSpecImpl;

pub use codes::ExitCode;

verus! {

/// An error that ends the tool.
#[derive(Debug)]
pub enum AppError {
    /// Nothing is at the target path.
    DirectoryNotFound { path: String },
    /// What is at the target path is no directory.
    NotADirectory { path: String },
    /// The target directory may not be read.
    PermissionDenied { path: String },
    /// The batch is in both schemes.
    MixedFormats {
        anidb_count: usize,
        readable_count: usize,
        anidb_examples: Vec<String>,
        readable_examples: Vec<String>,
    },
    /// Some names are in neither scheme.
    UnrecognizedFormat { directories: Vec<String> },
    /// The provider gave no metadata.
    ApiError { anidb_id: u32, message: String },
    /// A journal could not be used.
    HistoryError { path: Option<String>, message: String },
    /// A directory could not be renamed.
    RenameError { from: String, to: String, source: String },
    /// The cache failed.
    CacheError { message: String },
    /// Anything else.
    Other(String),
}

/// Mathematical content of an [`AppError`].
pub enum AppErrorData {
    DirectoryNotFound { path: Seq<char> },
    NotADirectory { path: Seq<char> },
    PermissionDenied { path: Seq<char> },
    MixedFormats {
        anidb_count: usize,
        readable_count: usize,
        anidb_examples: Seq<Seq<char>>,
        readable_examples: Seq<Seq<char>>,
    },
    UnrecognizedFormat { directories: Seq<Seq<char>> },
    ApiError { anidb_id: u32, message: Seq<char> },
    HistoryError { path: Option<Seq<char>>, message: Seq<char> },
    RenameError { from: Seq<char>, to: Seq<char>, source: Seq<char> },
    CacheError { message: Seq<char> },
    Other(Seq<char>),
}

impl View for AppError {
    type V = AppErrorData;

    open spec fn view(&self) -> AppErrorData {
        match self {
            AppError::DirectoryNotFound { path } => AppErrorData::DirectoryNotFound { path: path@ },
            AppError::NotADirectory { path } => AppErrorData::NotADirectory { path: path@ },
            AppError::PermissionDenied { path } => AppErrorData::PermissionDenied { path: path@ },
            AppError::MixedFormats {
                anidb_count,
                readable_count,
                anidb_examples,
                readable_examples,
            } => AppErrorData::MixedFormats {
                anidb_count: *anidb_count,
                readable_count: *readable_count,
                anidb_examples: texts(anidb_examples@),
                readable_examples: texts(readable_examples@),
            },
            AppError::UnrecognizedFormat { directories } => AppErrorData::UnrecognizedFormat {
                directories: texts(directories@),
            },
            AppError::ApiError { anidb_id, message } => AppErrorData::ApiError {
                anidb_id: *anidb_id,
                message: message@,
            },
            AppError::HistoryError { path, message } => AppErrorData::HistoryError {
                path: opt_text(*path),
                message: message@,
            },
            AppError::RenameError { from, to, source } => AppErrorData::RenameError {
                from: from@,
                to: to@,
                source: source@,
            },
            AppError::CacheError { message } => AppErrorData::CacheError { message: message@ },
            AppError::Other(m) => AppErrorData::Other(m@),
        }
    }
}

/// At most the first `limit` of the given names.
pub open spec fn first_of(names: Seq<Seq<char>>, limit: nat) -> Seq<Seq<char>> {
    if names.len() <= limit {
        names
    } else {
        names.take(limit as int)
    }
}

impl AppErrorData {
    /// The exit code of the error.
    pub open spec fn exit_code(self) -> ExitCode {
        match self {
            AppErrorData::DirectoryNotFound { .. } => ExitCode::DirectoryNotFound,
            AppErrorData::NotADirectory { .. } => ExitCode::DirectoryNotFound,
            AppErrorData::PermissionDenied { .. } => ExitCode::PermissionError,
            AppErrorData::MixedFormats { .. } => ExitCode::MixedFormats,
            AppErrorData::UnrecognizedFormat { .. } => ExitCode::UnrecognizedFormat,
            AppErrorData::ApiError { .. } => ExitCode::ApiError,
            AppErrorData::HistoryError { .. } => ExitCode::HistoryError,
            AppErrorData::RenameError { .. } => ExitCode::RenameError,
            AppErrorData::CacheError { .. } => ExitCode::CacheError,
            AppErrorData::Other(_) => ExitCode::GeneralError,
        }
    }

    /// The one-line message of the error.
    pub open spec fn summary(self) -> Seq<char> {
        match self {
            AppErrorData::DirectoryNotFound { path } => "Target directory not found: "@ + path,
            AppErrorData::NotADirectory { path } => "Path is not a directory: "@ + path,
            AppErrorData::PermissionDenied { path } => "Permission denied: "@ + path,
            AppErrorData::MixedFormats { .. } => "Mixed directory formats found"@,
            AppErrorData::UnrecognizedFormat { .. } => "Unrecognized directory format"@,
            AppErrorData::ApiError { anidb_id, message } => "API error for anime "@
                + decimal_digits(anidb_id as nat) + ": "@ + message,
            AppErrorData::HistoryError { path, message } => "History file error: "@ + message,
            AppErrorData::RenameError { from, to, source } => "Rename failed: "@ + from + " -> "@
                + to,
            AppErrorData::CacheError { message } => "Cache error: "@ + message,
            AppErrorData::Other(m) => m,
        }
    }

    /// The report of the error for a user: what went wrong, with the names
    /// and paths that it went wrong on, and what can be done.
    pub open spec fn report(self) -> Seq<char> {
        match self {
            AppErrorData::DirectoryNotFound { path } =>
                "The specified directory does not exist:\n  "@ + path
                    + "\n\nPlease verify the path and try again."@,
            AppErrorData::NotADirectory { path } => "The specified path is not a directory:\n  "@
                + path + "\n\nPlease provide a valid directory path."@,
            AppErrorData::PermissionDenied { path } => "Permission denied when accessing:\n  "@
                + path
                + "\n\nPlease check file permissions or run with appropriate privileges."@,
            AppErrorData::MixedFormats {
                anidb_count,
                readable_count,
                anidb_examples,
                readable_examples,
            } => "Found directories in multiple formats:\n- "@ + decimal_digits(
                anidb_count as nat,
            ) + " in AniDB format\n- "@ + decimal_digits(readable_count as nat)
                + " in human-readable format\n\n"@ + (if anidb_examples.len() > 0 {
                "AniDB format examples:\n"@ + bullet_list(first_of(anidb_examples, 3))
            } else {
                Seq::empty()
            }) + (if readable_examples.len() > 0 {
                "\nHuman-readable format examples:\n"@ + bullet_list(
                    first_of(readable_examples, 3),
                )
            } else {
                Seq::empty()
            })
                + "\nAll directories must be in the same format.\nManually rename mixed directories before running again."@,
            AppErrorData::UnrecognizedFormat { directories } =>
                "The following directories do not match any known format:\n"@ + bullet_list(
                    first_of(directories, 10),
                ) + (if directories.len() > 10 {
                    "  ... and "@ + decimal_digits((directories.len() - 10) as nat) + " more\n"@
                } else {
                    Seq::empty()
                }) + "\nExpected formats:\n"@ + "  AniDB:          [<series>] <anidb_id>\n"@
                    + "                  Examples: 12345, [AS0] 67890\n"@
                    + "  Human-readable: <title> (<year>) [catalog-<id>]\n"@
                    + "                  Examples: Naruto (2002) [catalog-12345]\n"@,
            AppErrorData::ApiError { anidb_id, message } => "Failed to fetch data for anime ID "@
                + decimal_digits(anidb_id as nat) + ":\n  "@ + message
                + "\n\nThis could be due to:\n- Network connectivity issues\n- AniDB API rate limiting\n- Invalid anime ID\n\nTry again later or check your internet connection."@,
            AppErrorData::HistoryError { path, message } => "History file error:\n  "@ + message
                + "\n"@ + (match path {
                Some(p) => "File: "@ + p + "\n"@,
                None => Seq::empty(),
            }) + "\nEnsure the history file exists and is valid JSON."@,
            AppErrorData::RenameError { from, to, source } => "Failed to rename directory:\nFrom: "@
                + from + "\nTo:   "@ + to + "\nError: "@ + source
                + "\n\nCheck file permissions and ensure no files are open."@,
            AppErrorData::CacheError { message } => "Cache error: "@ + message
                + "\n\nThe cache file may be corrupted. Delete the cache file to rebuild it."@,
            AppErrorData::Other(m) => m,
        }
    }
}

/// Appends one line for each of at most the first `limit` names.
fn push_first_bullets(buf: &mut Vec<char>, names: &Vec<String>, limit: usize)
    ensures
        final(buf)@ == old(buf)@ + bullet_list(first_of(texts(names@), limit as nat)),
{
    let count = if names.len() <= limit {
        names.len()
    } else {
        limit
    };
    push_bullets(buf, names, count);
    assert(texts(names@).take(names.len() as int) =~= texts(names@));
}

impl AppError {
    /// The exit code of the error.
    pub fn exit_code(&self) -> (code: ExitCode)
        ensures
            code == self@.exit_code(),
    {
        match self {
            AppError::DirectoryNotFound { .. } => ExitCode::DirectoryNotFound,
            AppError::NotADirectory { .. } => ExitCode::DirectoryNotFound,
            AppError::PermissionDenied { .. } => ExitCode::PermissionError,
            AppError::MixedFormats { .. } => ExitCode::MixedFormats,
            AppError::UnrecognizedFormat { .. } => ExitCode::UnrecognizedFormat,
            AppError::ApiError { .. } => ExitCode::ApiError,
            AppError::HistoryError { .. } => ExitCode::HistoryError,
            AppError::RenameError { .. } => ExitCode::RenameError,
            AppError::CacheError { .. } => ExitCode::CacheError,
            AppError::Other(_) => ExitCode::GeneralError,
        }
    }

    /// The one-line message of the error.
    pub fn message(&self) -> (out: String)
        ensures
            out@ == self@.summary(),
    {
        let mut buf: Vec<char> = Vec::new();
        match self {
            AppError::DirectoryNotFound { path } => {
                extend_str(&mut buf, "Target directory not found: ");
                extend_str(&mut buf, path.as_str());
            },
            AppError::NotADirectory { path } => {
                extend_str(&mut buf, "Path is not a directory: ");
                extend_str(&mut buf, path.as_str());
            },
            AppError::PermissionDenied { path } => {
                extend_str(&mut buf, "Permission denied: ");
                extend_str(&mut buf, path.as_str());
            },
            AppError::MixedFormats { .. } => {
                extend_str(&mut buf, "Mixed directory formats found");
            },
            AppError::UnrecognizedFormat { .. } => {
                extend_str(&mut buf, "Unrecognized directory format");
            },
            AppError::ApiError { anidb_id, message } => {
                extend_str(&mut buf, "API error for anime ");
                extend_chars(&mut buf, &format_u32(*anidb_id));
                extend_str(&mut buf, ": ");
                extend_str(&mut buf, message.as_str());
            },
            AppError::HistoryError { path, message } => {
                extend_str(&mut buf, "History file error: ");
                extend_str(&mut buf, message.as_str());
            },
            AppError::RenameError { from, to, source } => {
                extend_str(&mut buf, "Rename failed: ");
                extend_str(&mut buf, from.as_str());
                extend_str(&mut buf, " -> ");
                extend_str(&mut buf, to.as_str());
            },
            AppError::CacheError { message } => {
                extend_str(&mut buf, "Cache error: ");
                extend_str(&mut buf, message.as_str());
            },
            AppError::Other(m) => {
                extend_str(&mut buf, m.as_str());
            },
        }
        string_of(&buf)
    }

    /// The report of the error for a user.
    pub fn detailed_message(&self) -> (out: String)
        ensures
            out@ == self@.report(),
    {
        let mut buf: Vec<char> = Vec::new();
        match self {
            AppError::DirectoryNotFound { path } => {
                extend_str(&mut buf, "The specified directory does not exist:\n  ");
                extend_str(&mut buf, path.as_str());
                extend_str(&mut buf, "\n\nPlease verify the path and try again.");
            },
            AppError::NotADirectory { path } => {
                extend_str(&mut buf, "The specified path is not a directory:\n  ");
                extend_str(&mut buf, path.as_str());
                extend_str(&mut buf, "\n\nPlease provide a valid directory path.");
            },
            AppError::PermissionDenied { path } => {
                extend_str(&mut buf, "Permission denied when accessing:\n  ");
                extend_str(&mut buf, path.as_str());
                extend_str(
                    &mut buf,
                    "\n\nPlease check file permissions or run with appropriate privileges.",
                );
            },
            AppError::MixedFormats {
                anidb_count,
                readable_count,
                anidb_examples,
                readable_examples,
            } => {
                extend_str(&mut buf, "Found directories in multiple formats:\n- ");
                extend_chars(&mut buf, &format_usize(*anidb_count));
                extend_str(&mut buf, " in AniDB format\n- ");
                extend_chars(&mut buf, &format_usize(*readable_count));
                extend_str(&mut buf, " in human-readable format\n\n");
                if anidb_examples.len() > 0 {
                    extend_str(&mut buf, "AniDB format examples:\n");
                    push_first_bullets(&mut buf, anidb_examples, 3);
                }
                if readable_examples.len() > 0 {
                    extend_str(&mut buf, "\nHuman-readable format examples:\n");
                    push_first_bullets(&mut buf, readable_examples, 3);
                }
                extend_str(
                    &mut buf,
                    "\nAll directories must be in the same format.\nManually rename mixed directories before running again.",
                );
            },
            AppError::UnrecognizedFormat { directories } => {
                extend_str(&mut buf, "The following directories do not match any known format:\n");
                push_first_bullets(&mut buf, directories, 10);
                if directories.len() > 10 {
                    extend_str(&mut buf, "  ... and ");
                    extend_chars(&mut buf, &format_usize(directories.len() - 10));
                    extend_str(&mut buf, " more\n");
                }
                extend_str(&mut buf, "\nExpected formats:\n");
                extend_str(&mut buf, "  AniDB:          [<series>] <anidb_id>\n");
                extend_str(&mut buf, "                  Examples: 12345, [AS0] 67890\n");
                extend_str(&mut buf, "  Human-readable: <title> (<year>) [catalog-<id>]\n");
                extend_str(&mut buf, "                  Examples: Naruto (2002) [catalog-12345]\n");
            },
            AppError::ApiError { anidb_id, message } => {
                extend_str(&mut buf, "Failed to fetch data for anime ID ");
                extend_chars(&mut buf, &format_u32(*anidb_id));
                extend_str(&mut buf, ":\n  ");
                extend_str(&mut buf, message.as_str());
                extend_str(
                    &mut buf,
                    "\n\nThis could be due to:\n- Network connectivity issues\n- AniDB API rate limiting\n- Invalid anime ID\n\nTry again later or check your internet connection.",
                );
            },
            AppError::HistoryError { path, message } => {
                extend_str(&mut buf, "History file error:\n  ");
                extend_str(&mut buf, message.as_str());
                extend_str(&mut buf, "\n");
                match path {
                    Some(p) => {
                        extend_str(&mut buf, "File: ");
                        extend_str(&mut buf, p.as_str());
                        extend_str(&mut buf, "\n");
                    },
                    None => {},
                }
                extend_str(&mut buf, "\nEnsure the history file exists and is valid JSON.");
            },
            AppError::RenameError { from, to, source } => {
                extend_str(&mut buf, "Failed to rename directory:\nFrom: ");
                extend_str(&mut buf, from.as_str());
                extend_str(&mut buf, "\nTo:   ");
                extend_str(&mut buf, to.as_str());
                extend_str(&mut buf, "\nError: ");
                extend_str(&mut buf, source.as_str());
                extend_str(&mut buf, "\n\nCheck file permissions and ensure no files are open.");
            },
            AppError::CacheError { message } => {
                extend_str(&mut buf, "Cache error: ");
                extend_str(&mut buf, message.as_str());
                extend_str(
                    &mut buf,
                    "\n\nThe cache file may be corrupted. Delete the cache file to rebuild it.",
                );
            },
            AppError::Other(m) => {
                extend_str(&mut buf, m.as_str());
            },
        }
        string_of(&buf)
    }
}

/// What a scanner error becomes for the user.
pub open spec fn scanner_failure(err: ScannerError) -> AppErrorData {
    match err {
        ScannerError::PathNotFound(path) => AppErrorData::DirectoryNotFound { path: path@ },
        ScannerError::NotADirectory(path) => AppErrorData::NotADirectory { path: path@ },
        ScannerError::PermissionDenied(path) => AppErrorData::PermissionDenied { path: path@ },
        ScannerError::IoError(e) => AppErrorData::Other("I/O error: "@ + e@),
    }
}

/// What a validation error becomes for the user.
pub open spec fn validation_failure(err: ValidationError) -> AppErrorData {
    match err {
        ValidationError::UnrecognizedDirectories { directories } =>
            AppErrorData::UnrecognizedFormat { directories: texts(directories@) },
        ValidationError::MixedFormats { mismatch } => AppErrorData::MixedFormats {
            anidb_count: mismatch.anidb_dirs@.len() as usize,
            readable_count: mismatch.human_readable_dirs@.len() as usize,
            anidb_examples: texts(mismatch.anidb_dirs@),
            readable_examples: texts(mismatch.human_readable_dirs@),
        },
        ValidationError::NoDirectories => AppErrorData::Other(
            "No subdirectories found in target"@,
        ),
    }
}

/// What a provider error becomes for the user.
pub open spec fn api_failure(err: ApiError) -> AppErrorData {
    match err {
        ApiError::NotFound(id) => AppErrorData::ApiError {
            anidb_id: id,
            message: "Anime not found"@,
        },
        ApiError::RateLimited => AppErrorData::ApiError {
            anidb_id: 0,
            message: "Rate limited by AniDB - please wait and try again"@,
        },
        ApiError::NetworkError(m) => AppErrorData::ApiError {
            anidb_id: 0,
            message: "Network error: "@ + m@,
        },
        ApiError::Timeout => AppErrorData::ApiError { anidb_id: 0, message: "Request timed out"@ },
        ApiError::ParseError(m) => AppErrorData::ApiError {
            anidb_id: 0,
            message: "Failed to parse response: "@ + m@,
        },
        ApiError::ServerError(m) => AppErrorData::ApiError {
            anidb_id: 0,
            message: "API error: "@ + m@,
        },
        ApiError::MaxRetriesExceeded { attempts } => AppErrorData::ApiError {
            anidb_id: 0,
            message: "Max retries ("@ + decimal_digits(attempts as nat) + ") exceeded"@,
        },
        ApiError::NotConfigured => AppErrorData::ApiError {
            anidb_id: 0,
            message: "API client not configured. Set ANIDB_CLIENT and ANIDB_CLIENT_VERSION environment variables or create a .env file"@,
        },
        ApiError::Banned(m) => AppErrorData::ApiError {
            anidb_id: 0,
            message: "Banned by AniDB: "@ + m@,
        },
        ApiError::IncompleteData { anidb_id, field } => AppErrorData::ApiError {
            anidb_id,
            message: "Incomplete data: missing "@ + field@,
        },
    }
}

/// A text behind a heading.
fn headed(heading: &str, text: &str) -> (out: String)
    ensures
        out@ == heading@ + text@,
{
    let mut buf = chars_of(heading);
    extend_str(&mut buf, text);
    string_of(&buf)
}

impl From<ScannerError> for AppError {
    fn from(err: ScannerError) -> (out: AppError)
        ensures
            out@ == scanner_failure(err),
    {
        match err {
            ScannerError::PathNotFound(path) => AppError::DirectoryNotFound { path },
            ScannerError::NotADirectory(path) => AppError::NotADirectory { path },
            ScannerError::PermissionDenied(path) => AppError::PermissionDenied { path },
            ScannerError::IoError(e) => AppError::Other(headed("I/O error: ", e.as_str())),
        }
    }
}

impl FromSpecImpl<ScannerError> for AppError {
    open spec fn obeys_from_spec() -> bool {
        false
    }

    open spec fn from_spec(err: ScannerError) -> AppError {
        arbitrary()
    }
}

impl From<ValidationError> for AppError {
    fn from(err: ValidationError) -> (out: AppError)
        ensures
            out@ == validation_failure(err),
    {
        match err {
            ValidationError::UnrecognizedDirectories { directories } => {
                AppError::UnrecognizedFormat { directories }
            },
            ValidationError::MixedFormats { mismatch } => AppError::MixedFormats {
                anidb_count: mismatch.anidb_dirs.len(),
                readable_count: mismatch.human_readable_dirs.len(),
                anidb_examples: mismatch.anidb_dirs,
                readable_examples: mismatch.human_readable_dirs,
            },
            ValidationError::NoDirectories => AppError::Other(
                "No subdirectories found in target".to_owned(),
            ),
        }
    }
}

impl FromSpecImpl<ValidationError> for AppError {
    open spec fn obeys_from_spec() -> bool {
        false
    }

    open spec fn from_spec(err: ValidationError) -> AppError {
        arbitrary()
    }
}

impl From<ApiError> for AppError {
    fn from(err: ApiError) -> (out: AppError)
        ensures
            out@ == api_failure(err),
    {
        match err {
            ApiError::NotFound(id) => AppError::ApiError {
                anidb_id: id,
                message: "Anime not found".to_owned(),
            },
            ApiError::RateLimited => AppError::ApiError {
                anidb_id: 0,
                message: "Rate limited by AniDB - please wait and try again".to_owned(),
            },
            ApiError::NetworkError(m) => AppError::ApiError {
                anidb_id: 0,
                message: headed("Network error: ", m.as_str()),
            },
            ApiError::Timeout => AppError::ApiError {
                anidb_id: 0,
                message: "Request timed out".to_owned(),
            },
            ApiError::ParseError(m) => AppError::ApiError {
                anidb_id: 0,
                message: headed("Failed to parse response: ", m.as_str()),
            },
            ApiError::ServerError(m) => AppError::ApiError {
                anidb_id: 0,
                message: headed("API error: ", m.as_str()),
            },
            ApiError::MaxRetriesExceeded { attempts } => {
                let mut buf = chars_of("Max retries (");
                extend_chars(&mut buf, &format_u32(attempts));
                extend_str(&mut buf, ") exceeded");
                AppError::ApiError { anidb_id: 0, message: string_of(&buf) }
            },
            ApiError::NotConfigured => AppError::ApiError {
                anidb_id: 0,
                message: "API client not configured. Set ANIDB_CLIENT and ANIDB_CLIENT_VERSION environment variables or create a .env file".to_owned(),
            },
            ApiError::Banned(m) => AppError::ApiError {
                anidb_id: 0,
                message: headed("Banned by AniDB: ", m.as_str()),
            },
            ApiError::IncompleteData { anidb_id, field } => AppError::ApiError {
                anidb_id,
                message: headed("Incomplete data: missing ", field.as_str()),
            },
        }
    }
}

impl FromSpecImpl<ApiError> for AppError {
    open spec fn obeys_from_spec() -> bool {
        false
    }

    open spec fn from_spec(err: ApiError) -> AppError {
        arbitrary()
    }
}

impl From<CacheError> for AppError {
    fn from(err: CacheError) -> (out: AppError)
        ensures
            out@ == (AppErrorData::CacheError { message: err.text() }),
    {
        AppError::CacheError { message: err.message() }
    }
}

impl FromSpecImpl<CacheError> for AppError {
    open spec fn obeys_from_spec() -> bool {
        false
    }

    open spec fn from_spec(err: CacheError) -> AppError {
        arbitrary()
    }
}

/// What the failure of a batch becomes for the user. A failure of the
/// provider keeps its id; a failed rename keeps its names; a destination
/// that is taken is a failed rename to that name.
pub open spec fn rename_failure(err: RenameError) -> AppErrorData {
    match err {
        RenameError::ApiError { id, message } => AppErrorData::ApiError {
            anidb_id: id,
            message: message@,
        },
        RenameError::FilesystemError { from, to, source } => AppErrorData::RenameError {
            from: from@,
            to: to@,
            source: source@,
        },
        RenameError::DestinationExists(name) => AppErrorData::RenameError {
            from: Seq::empty(),
            to: name@,
            source: "Destination already exists"@,
        },
        RenameError::ApiNotConfigured => AppErrorData::ApiError {
            anidb_id: 0,
            message: "API client not configured. Set ANIDB_CLIENT and ANIDB_CLIENT_VERSION environment variables or create a .env file"@,
        },
        RenameError::CacheError(m) => AppErrorData::CacheError { message: m@ },
    }
}

impl From<RenameError> for AppError {
    fn from(err: RenameError) -> (out: AppError)
        ensures
            out@ == rename_failure(err),
    {
        match err {
            RenameError::ApiError { id, message } => AppError::ApiError { anidb_id: id, message },
            RenameError::FilesystemError { from, to, source } => AppError::RenameError {
                from,
                to,
                source,
            },
            RenameError::DestinationExists(name) => AppError::RenameError {
                from: String::new(),
                to: name,
                source: "Destination already exists".to_owned(),
            },
            RenameError::ApiNotConfigured => AppError::ApiError {
                anidb_id: 0,
                message: "API client not configured. Set ANIDB_CLIENT and ANIDB_CLIENT_VERSION environment variables or create a .env file".to_owned(),
            },
            RenameError::CacheError(m) => AppError::CacheError { message: m },
        }
    }
}

impl FromSpecImpl<RenameError> for AppError {
    open spec fn obeys_from_spec() -> bool {
        false
    }

    open spec fn from_spec(err: RenameError) -> AppError {
        arbitrary()
    }
}

impl From<RevertError> for AppError {
    fn from(err: RevertError) -> (out: AppError)
        ensures
            out@ == AppErrorData::Other("Revert failed: "@ + err.text()),
    {
        AppError::Other(headed("Revert failed: ", err.message().as_str()))
    }
}

impl FromSpecImpl<RevertError> for AppError {
    open spec fn obeys_from_spec() -> bool {
        false
    }

    open spec fn from_spec(err: RevertError) -> AppError {
        arbitrary()
    }
}

} // verus!
