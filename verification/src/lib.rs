//! Renames a batch of sibling directories between two naming schemes of a
//! media library: the compact scheme `[<series>] <id>` and the readable
//! scheme `[<series>] <title> ／ <alternate title> (<year>) [catalog-<id>]`.
//!
//! The library decides and the caller acts. A directory name is classified
//! by [`parser`]; a batch is validated by [`validator`]; a name is built by
//! [`rename`], which also holds the transactions that rename a batch step by
//! step; metadata is kept in [`cache`]; a batch is recorded by [`history`]
//! and reverted by [`revert`]. Reading and writing files, asking the
//! metadata provider and renaming directories are left to the caller, who is
//! told what to do and tells what came of it.
//!
//! What holds of the library as a whole is proved in [`laws`].

pub mod api;
pub mod cache;
pub mod cli;
pub mod error;
pub mod history;
pub mod laws;
pub mod logging;
pub mod output;
pub mod parser;
pub mod paths;
pub mod progress;
pub mod rename;
pub mod revert;
pub mod scanner;
pub mod styled;
pub mod text;
pub mod timestamp;
pub mod ui;
pub mod validator;

pub use api::{AnimeInfo, ApiConfig, ApiError};
pub use cache::{CacheConfig, CacheError, CacheStore};
pub use error::{AppError, ExitCode};
pub use history::{
    read_history, validate_for_revert, write_history, HistoryDirection, HistoryEntry, HistoryError,
    HistoryFile, OperationType, HISTORY_VERSION,
};
pub use parser::{
    parse_directory_name, AniDbFormat, DirectoryFormat, HumanReadableFormat, ParseError,
    ParsedDirectory,
};
pub use progress::Progress;
pub use rename::{
    build_anidb_name, rename_to_readable, RenameDirection, RenameError, RenameOperation,
    RenameOptions, RenameResult,
};
pub use revert::{revert_from_history, RevertError, RevertOperation, RevertOptions, RevertResult};
pub use scanner::{scan_directory, DirectoryEntry, ScannerError};
pub use timestamp::Timestamp;
pub use ui::{Ui, UiConfig};
pub use validator::{validate_directories, FormatMismatch, ValidationError, ValidationResult};
