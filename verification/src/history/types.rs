//! The journal of a batch: what was renamed to what, when, and in which
//! direction.

use crate::text::{chars_of, decimal_digits, extend_chars, extend_str, format_u32, string_of};
use crate::timestamp::{compact_utc_text, Timestamp};
use vstd::prelude::*;

verus! {

/// The schema version of the journals that this library reads and writes.
pub const HISTORY_VERSION: &'static str = "1.0";

/// What a journal records: a renaming, or the reverting of one.
#[derive(Debug, Clone, Copy, PartialEq, Eq, Structural)]
pub enum OperationType {
    Rename,
    Revert,
}

impl OperationType {
    /// The word that stands for the operation in a journal file.
    pub fn wire_name(&self) -> (name: &'static str)
        ensures
            name@ == match self {
                OperationType::Rename => "rename"@,
                OperationType::Revert => "revert"@,
            },
    {
        match self {
            OperationType::Rename => "rename",
            OperationType::Revert => "revert",
        }
    }
}

/// The direction that a journal records.
#[derive(Debug, Clone, Copy, PartialEq, Eq, Structural)]
pub enum HistoryDirection {
    AnidbToReadable,
    ReadableToAnidb,
}

impl HistoryDirection {
    /// The direction in words.
    pub fn description(&self) -> (text: &'static str)
        ensures
            text@ == match self {
                HistoryDirection::AnidbToReadable => "AniDB -> Human-readable"@,
                HistoryDirection::ReadableToAnidb => "Human-readable -> AniDB"@,
            },
    {
        match self {
            HistoryDirection::AnidbToReadable => "AniDB -> Human-readable",
            HistoryDirection::ReadableToAnidb => "Human-readable -> AniDB",
        }
    }

    /// The word that stands for the direction in a journal file.
    pub fn wire_name(&self) -> (name: &'static str)
        ensures
            name@ == match self {
                HistoryDirection::AnidbToReadable => "catalog_to_readable"@,
                HistoryDirection::ReadableToAnidb => "readable_to_catalog"@,
            },
    {
        match self {
            HistoryDirection::AnidbToReadable => "catalog_to_readable",
            HistoryDirection::ReadableToAnidb => "readable_to_catalog",
        }
    }

    /// The other direction.
    pub open spec fn spec_reversed(&self) -> HistoryDirection {
        match self {
            HistoryDirection::AnidbToReadable => HistoryDirection::ReadableToAnidb,
            HistoryDirection::ReadableToAnidb => HistoryDirection::AnidbToReadable,
        }
    }

    /// The other direction.
    pub fn reversed(&self) -> (other: HistoryDirection)
        ensures
            other == self.spec_reversed(),
    {
        match self {
            HistoryDirection::AnidbToReadable => HistoryDirection::ReadableToAnidb,
            HistoryDirection::ReadableToAnidb => HistoryDirection::AnidbToReadable,
        }
    }
}

/// One renamed directory.
#[derive(Debug, Clone)]
pub struct HistoryEntry {
    /// The name before.
    pub source: String,
    /// The name after.
    pub destination: String,
    /// The id that the directory carries.
    pub anidb_id: u32,
    /// Whether the new name had to be shortened.
    pub truncated: bool,
}

/// Mathematical content of a [`HistoryEntry`].
pub struct ChangeData {
    pub source: Seq<char>,
    pub destination: Seq<char>,
    pub id: u32,
    pub truncated: bool,
}

impl View for HistoryEntry {
    type V = ChangeData;

    open spec fn view(&self) -> ChangeData {
        ChangeData {
            source: self.source@,
            destination: self.destination@,
            id: self.anidb_id,
            truncated: self.truncated,
        }
    }
}

/// The content of the given entries, in order.
pub open spec fn changes_data(entries: Seq<HistoryEntry>) -> Seq<ChangeData> {
    Seq::new(entries.len(), |i: int| entries[i]@)
}

/// The journal of one batch.
#[derive(Debug, Clone)]
pub struct HistoryFile {
    /// The schema version.
    pub version: String,
    /// When the batch was run.
    pub executed_at: Timestamp,
    /// Whether the batch renamed or reverted.
    pub operation: OperationType,
    /// The direction of the batch.
    pub direction: HistoryDirection,
    /// The directory whose subdirectories were renamed.
    pub target_directory: String,
    /// The version of the tool that ran the batch.
    pub tool_version: String,
    /// What was renamed, in the order of the batch.
    pub changes: Vec<HistoryEntry>,
}

/// The file name of the journal of a batch run at the given second.
pub open spec fn journal_file_name(seconds: int) -> Seq<char> {
    "anidb2folder-history-"@ + compact_utc_text(seconds) + ".json"@
}

/// The file name of a journal where [`journal_file_name`] is taken: the
/// milliseconds stand behind the second.
pub open spec fn unique_journal_file_name(seconds: int, millis: nat) -> Seq<char> {
    "anidb2folder-history-"@ + compact_utc_text(seconds) + "-"@ + decimal_digits(millis)
        + ".json"@
}

impl HistoryFile {
    /// The name of the file that this journal is written to.
    pub fn generate_filename(&self) -> (name: String)
        ensures
            name@ == journal_file_name(self.executed_at.seconds()),
    {
        let mut buf = chars_of("anidb2folder-history-");
        extend_str(&mut buf, self.executed_at.compact_text().as_str());
        extend_str(&mut buf, ".json");
        string_of(&buf)
    }

    /// The name of the file that this journal is written to where the name
    /// of [`HistoryFile::generate_filename`] is taken.
    pub fn generate_unique_filename(&self) -> (name: String)
        ensures
            name@ == unique_journal_file_name(
                self.executed_at.seconds(),
                (self.executed_at.subsec_nanos() / 1_000_000) as nat,
            ),
    {
        let mut buf = chars_of("anidb2folder-history-");
        extend_str(&mut buf, self.executed_at.compact_text().as_str());
        extend_str(&mut buf, "-");
        extend_chars(&mut buf, &format_u32(self.executed_at.subsec_millis()));
        extend_str(&mut buf, ".json");
        string_of(&buf)
    }

    /// The name of the file that the journal of a revert of this journal,
    /// run at `revert_time`, is written to.
    pub fn generate_revert_filename(&self, revert_time: &Timestamp) -> (name: String)
        ensures
            name@ == journal_file_name(revert_time.seconds()),
    {
        let mut buf = chars_of("anidb2folder-history-");
        extend_str(&mut buf, revert_time.compact_text().as_str());
        extend_str(&mut buf, ".json");
        string_of(&buf)
    }
}

} // verus!
