//! Makes the journal of a batch and decides where it is written.

use super::types::{
    changes_data, journal_file_name, unique_journal_file_name, ChangeData, HistoryDirection,
    HistoryEntry, HistoryFile, OperationType, HISTORY_VERSION,
};
use crate::paths::{join_path, joined_path, path_with_extension, temp_path_of};
use crate::rename::{OperationData, RenameDirection, RenameOperation, RenameResult};
use crate::text::{extend_str, string_of};
use crate::timestamp::Timestamp;
use vstd::prelude::*;

verus! {

/// Why a journal could not be read or written.
#[derive(Debug)]
pub enum HistoryError {
    /// Writing failed. Holds what the system said.
    WriteError(String),
    /// The journal could not be written as JSON. Holds the reason.
    SerializeError(String),
    /// The journal could not be read. Holds the reason.
    ReadError(String),
    /// The journal is of another schema version.
    VersionMismatch { expected: String, found: String },
}

impl HistoryError {
    /// The message for a user, as a sequence of characters.
    pub open spec fn text(&self) -> Seq<char> {
        match self {
            HistoryError::WriteError(m) => "Failed to write history file: "@ + m@,
            HistoryError::SerializeError(m) => "Failed to serialize history: "@ + m@,
            HistoryError::ReadError(m) => "Failed to read history file: "@ + m@,
            HistoryError::VersionMismatch { expected, found } =>
                "History file version mismatch: expected "@ + expected@ + ", found "@ + found@,
        }
    }

    /// The message for a user.
    pub fn message(&self) -> (out: String)
        ensures
            out@ == self.text(),
    {
        let mut buf: Vec<char> = Vec::new();
        match self {
            HistoryError::WriteError(m) => {
                extend_str(&mut buf, "Failed to write history file: ");
                extend_str(&mut buf, m.as_str());
            },
            HistoryError::SerializeError(m) => {
                extend_str(&mut buf, "Failed to serialize history: ");
                extend_str(&mut buf, m.as_str());
            },
            HistoryError::ReadError(m) => {
                extend_str(&mut buf, "Failed to read history file: ");
                extend_str(&mut buf, m.as_str());
            },
            HistoryError::VersionMismatch { expected, found } => {
                extend_str(&mut buf, "History file version mismatch: expected ");
                extend_str(&mut buf, expected.as_str());
                extend_str(&mut buf, ", found ");
                extend_str(&mut buf, found.as_str());
            },
        }
        string_of(&buf)
    }
}

/// The direction that a journal records for a batch.
pub open spec fn journal_direction(direction: RenameDirection) -> HistoryDirection {
    match direction {
        RenameDirection::AniDbToReadable => HistoryDirection::AnidbToReadable,
        RenameDirection::ReadableToAniDb => HistoryDirection::ReadableToAnidb,
    }
}

/// What a journal records of an operation: the two names, the id and the
/// mark.
pub open spec fn change_of(op: OperationData) -> ChangeData {
    ChangeData {
        source: op.source_name,
        destination: op.destination_name,
        id: op.id,
        truncated: op.truncated,
    }
}

/// What a journal records of the given operations, in order.
pub open spec fn changes_of(ops: Seq<RenameOperation>) -> Seq<ChangeData> {
    Seq::new(ops.len(), |i: int| change_of(ops[i]@))
}

/// Makes the journal of a batch: one entry for each operation, in the order
/// of the batch.
pub fn create_history_from_result(
    result: &RenameResult,
    target_dir: &str,
    executed_at: Timestamp,
    tool_version: &str,
) -> (history: HistoryFile)
    ensures
        history.version@ == HISTORY_VERSION@,
        history.executed_at == executed_at,
        history.operation == OperationType::Rename,
        history.direction == journal_direction(result.direction),
        history.target_directory@ == target_dir@,
        history.tool_version@ == tool_version@,
        changes_data(history.changes@) == changes_of(result.operations@),
{
    let direction = match result.direction {
        RenameDirection::AniDbToReadable => HistoryDirection::AnidbToReadable,
        RenameDirection::ReadableToAniDb => HistoryDirection::ReadableToAnidb,
    };
    let mut changes: Vec<HistoryEntry> = Vec::new();
    let mut i: usize = 0;
    while i < result.operations.len()
        invariant
            i <= result.operations.len(),
            changes@.len() == i,
            forall|j: int| 0 <= j < i ==> (#[trigger] changes@[j])@ == change_of(
                result.operations@[j]@,
            ),
        decreases result.operations.len() - i,
    {
        let op = &result.operations[i];
        changes.push(
            HistoryEntry {
                source: op.source_name.clone(),
                destination: op.destination_name.clone(),
                anidb_id: op.anidb_id,
                truncated: op.truncated,
            },
        );
        i += 1;
    }
    HistoryFile {
        version: HISTORY_VERSION.to_owned(),
        executed_at,
        operation: OperationType::Rename,
        direction,
        target_directory: target_dir.to_owned(),
        tool_version: tool_version.to_owned(),
        changes,
    }
}

/// Makes the journal of a batch that was run at `executed_at`.
pub fn write_history(
    result: &RenameResult,
    target_dir: &str,
    executed_at: Timestamp,
    tool_version: &str,
) -> (history: HistoryFile)
    ensures
        history.version@ == HISTORY_VERSION@,
        history.executed_at == executed_at,
        history.operation == OperationType::Rename,
        history.direction == journal_direction(result.direction),
        history.target_directory@ == target_dir@,
        history.tool_version@ == tool_version@,
        changes_data(history.changes@) == changes_of(result.operations@),
{
    create_history_from_result(result, target_dir, executed_at, tool_version)
}

/// Where a file is written: first to `temp_path`, which then takes the place
/// of `path`, so that no reader sees a file that is half written.
#[derive(Debug, Clone)]
pub struct WritePlan {
    pub path: String,
    pub temp_path: String,
}

/// The plan for writing to `path`: the temporary file is `path` with the
/// extension `json.tmp`.
pub fn write_to_path(path: String) -> (plan: WritePlan)
    ensures
        plan.path@ == path@,
        plan.temp_path@ == path_with_extension(path@, "json.tmp"@),
{
    let temp_path = temp_path_of(path.as_str());
    WritePlan { path, temp_path }
}

/// Decides where a journal is written. The file is named after the second
/// that the batch was run at; where that name is taken, the milliseconds
/// are added to it.
pub fn write_history_file(history: &HistoryFile, target_dir: &str, name_taken: bool) -> (plan:
    WritePlan)
    ensures
        plan.path@ == joined_path(
            target_dir@,
            if name_taken {
                unique_journal_file_name(
                    history.executed_at.seconds(),
                    (history.executed_at.subsec_nanos() / 1_000_000) as nat,
                )
            } else {
                journal_file_name(history.executed_at.seconds())
            },
        ),
        plan.temp_path@ == path_with_extension(plan.path@, "json.tmp"@),
{
    let filename = if name_taken {
        history.generate_unique_filename()
    } else {
        history.generate_filename()
    };
    write_to_path(join_path(target_dir, filename.as_str()))
}

} // verus!
