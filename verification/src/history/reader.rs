//! Checks a journal that was read, and whether it belongs to a directory.

use super::types::{HistoryFile, HISTORY_VERSION};
use super::writer::HistoryError;
use crate::paths::{paths_equal, quote_path, quoted_path, same_path};
use crate::text::{chars_of, extend_str, same_chars, string_of};
use vstd::prelude::*;

verus! {

/// Why the file of a journal gave no journal.
#[derive(Debug)]
pub enum ReadFailure {
    /// The file could not be opened. Holds what the system said.
    CannotOpen(String),
    /// The file holds no journal. Holds what the decoder said.
    InvalidJson(String),
}

/// What reading a journal gives: the journal where it is of the current
/// schema version, `VersionMismatch` where it is of another, and
/// `ReadError` with the reason where the file gave no journal.
pub open spec fn checked_history(
    contents: Result<HistoryFile, ReadFailure>,
    result: Result<HistoryFile, HistoryError>,
) -> bool {
    match contents {
        Ok(history) => if history.version@ == HISTORY_VERSION@ {
            result == Ok::<HistoryFile, HistoryError>(history)
        } else {
            result matches Err(HistoryError::VersionMismatch { expected, found }) && expected@
                == HISTORY_VERSION@ && found@ == history.version@
        },
        Err(ReadFailure::CannotOpen(reason)) => result matches Err(HistoryError::ReadError(m))
            && m@ == "Cannot open file: "@ + reason@,
        Err(ReadFailure::InvalidJson(reason)) => result matches Err(HistoryError::ReadError(m))
            && m@ == "Invalid JSON: "@ + reason@,
    }
}

/// Checks what was read from the file of a journal. A journal of another
/// schema version is refused.
pub fn read_history(contents: Result<HistoryFile, ReadFailure>) -> (result: Result<
    HistoryFile,
    HistoryError,
>)
    ensures
        checked_history(contents, result),
{
    match contents {
        Ok(history) => {
            let found = chars_of(history.version.as_str());
            let expected = chars_of(HISTORY_VERSION);
            if same_chars(&found, &expected) {
                Ok(history)
            } else {
                Err(
                    HistoryError::VersionMismatch {
                        expected: HISTORY_VERSION.to_owned(),
                        found: history.version,
                    },
                )
            }
        },
        Err(ReadFailure::CannotOpen(reason)) => {
            let mut buf = chars_of("Cannot open file: ");
            extend_str(&mut buf, reason.as_str());
            Err(HistoryError::ReadError(string_of(&buf)))
        },
        Err(ReadFailure::InvalidJson(reason)) => {
            let mut buf = chars_of("Invalid JSON: ");
            extend_str(&mut buf, reason.as_str());
            Err(HistoryError::ReadError(string_of(&buf)))
        },
    }
}

/// Confirms that a journal was written for `target_dir`. A journal for
/// another directory is refused.
pub fn validate_for_revert(history: &HistoryFile, target_dir: &str) -> (result: Result<
    (),
    HistoryError,
>)
    ensures
        match result {
            Ok(_) => same_path(history.target_directory@, target_dir@),
            Err(HistoryError::ReadError(m)) => !same_path(history.target_directory@, target_dir@)
                && m@ == "History file is for different directory: "@ + quoted_path(
                history.target_directory@,
            ),
            Err(_) => false,
        },
{
    if paths_equal(history.target_directory.as_str(), target_dir) {
        Ok(())
    } else {
        let mut buf = chars_of("History file is for different directory: ");
        extend_str(&mut buf, quote_path(history.target_directory.as_str()).as_str());
        Err(HistoryError::ReadError(string_of(&buf)))
    }
}

} // verus!
