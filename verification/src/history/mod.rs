//! The journal that makes a batch revertible: one file for each batch.

mod reader;
mod types;
mod writer;

pub use reader::{checked_history, read_history, validate_for_revert, ReadFailure};
pub use types::{
    changes_data, journal_file_name, unique_journal_file_name, ChangeData, HistoryDirection,
    HistoryEntry, HistoryFile, OperationType, HISTORY_VERSION,
};
pub use writer::{
    change_of, changes_of, create_history_from_result, journal_direction, write_history,
    write_history_file, write_to_path, HistoryError, WritePlan,
};
