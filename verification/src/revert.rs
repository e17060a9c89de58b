//! Reverts a batch from its journal.
//!
//! The inverse of every entry is checked before anything is renamed: the
//! name that the batch gave must be there, and the name that it took must
//! be free. Every violation is reported, not only the first. The reverts are
//! then run in the order of the journal, and a journal of the revert is
//! made, so that a revert can be reverted in turn.

use crate::history::{
    changes_data, checked_history, journal_file_name, read_history, validate_for_revert,
    write_to_path, ChangeData, HistoryDirection, HistoryEntry, HistoryError, HistoryFile,
    OperationType, ReadFailure, WritePlan, HISTORY_VERSION,
};
use crate::paths::{join_path, joined_path, path_with_extension, quoted_path, same_path};
use crate::rename::RenameDirection;
use crate::text::{extend_chars, extend_str, string_of};
use crate::timestamp::Timestamp;
use vstd::prelude::*;

verus! {

/// Why a revert failed.
#[derive(Debug)]
pub enum RevertError {
    /// The journal could not be used.
    History(HistoryError),
    /// The directory is not as the journal left it. Holds every violation.
    ValidationFailed(String),
    /// A directory could not be renamed.
    RenameError { from: String, to: String, source: String },
    /// The journal of the revert could not be written.
    WriteError(String),
    /// The journal of the revert could not be written as JSON.
    SerializeError(String),
}

impl RevertError {
    /// The message for a user, as a sequence of characters.
    pub open spec fn text(&self) -> Seq<char> {
        match self {
            RevertError::History(e) => "History error: "@ + e.text(),
            RevertError::ValidationFailed(m) => "Validation failed: "@ + m@,
            RevertError::RenameError { from, to, source } => "Failed to rename '"@ + from@
                + "' to '"@ + to@ + "': "@ + source@,
            RevertError::WriteError(m) => "Failed to write revert history: "@ + m@,
            RevertError::SerializeError(m) => "Failed to serialize revert history: "@ + m@,
        }
    }

    /// The message for a user.
    pub fn message(&self) -> (out: String)
        ensures
            out@ == self.text(),
    {
        let mut buf: Vec<char> = Vec::new();
        match self {
            RevertError::History(e) => {
                extend_str(&mut buf, "History error: ");
                extend_str(&mut buf, e.message().as_str());
            },
            RevertError::ValidationFailed(m) => {
                extend_str(&mut buf, "Validation failed: ");
                extend_str(&mut buf, m.as_str());
            },
            RevertError::RenameError { from, to, source } => {
                extend_str(&mut buf, "Failed to rename '");
                extend_str(&mut buf, from.as_str());
                extend_str(&mut buf, "' to '");
                extend_str(&mut buf, to.as_str());
                extend_str(&mut buf, "': ");
                extend_str(&mut buf, source.as_str());
            },
            RevertError::WriteError(m) => {
                extend_str(&mut buf, "Failed to write revert history: ");
                extend_str(&mut buf, m.as_str());
            },
            RevertError::SerializeError(m) => {
                extend_str(&mut buf, "Failed to serialize revert history: ");
                extend_str(&mut buf, m.as_str());
            },
        }
        string_of(&buf)
    }
}

/// How a revert is run.
#[derive(Debug, Clone, Copy)]
pub struct RevertOptions {
    /// Only plan the revert.
    pub dry_run: bool,
}

impl Default for RevertOptions {
    /// A revert that is run.
    fn default() -> (options: RevertOptions)
        ensures
            !options.dry_run,
    {
        RevertOptions { dry_run: false }
    }
}

/// The reverting of one directory.
#[derive(Debug, Clone)]
pub struct RevertOperation {
    /// The path of the directory as it is.
    pub current_path: String,
    /// The name of the directory as it is.
    pub current_name: String,
    /// The path that the directory goes back to.
    pub revert_path: String,
    /// The name that the directory goes back to.
    pub revert_name: String,
    /// The id that the directory carries.
    pub anidb_id: u32,
}

/// Mathematical content of a [`RevertOperation`].
pub struct RevertData {
    pub current_path: Seq<char>,
    pub current_name: Seq<char>,
    pub revert_path: Seq<char>,
    pub revert_name: Seq<char>,
    pub id: u32,
}

impl View for RevertOperation {
    type V = RevertData;

    open spec fn view(&self) -> RevertData {
        RevertData {
            current_path: self.current_path@,
            current_name: self.current_name@,
            revert_path: self.revert_path@,
            revert_name: self.revert_name@,
            id: self.anidb_id,
        }
    }
}

/// What a revert did or would do.
#[derive(Debug)]
pub struct RevertResult {
    /// The reverts, in the order of the journal.
    pub operations: Vec<RevertOperation>,
    /// The direction of the revert: the other one than that of the journal.
    pub direction: RenameDirection,
    /// The path of the journal that was reverted.
    pub original_history: String,
    /// Whether the revert was only planned.
    pub dry_run: bool,
    /// The path of the journal of the revert, where one was written.
    pub revert_history_path: Option<String>,
}

/// What was found at the two paths of a journal entry.
#[derive(Debug, Clone, Copy)]
pub struct PathProbe {
    /// Whether the name that the batch gave is there.
    pub current_exists: bool,
    /// Whether the name that the batch took is there.
    pub original_exists: bool,
}

/// The probe for entry `i`. A probe that is missing counts as a directory
/// that is missing.
pub open spec fn probe_at(probes: Seq<PathProbe>, i: int) -> PathProbe {
    if 0 <= i < probes.len() {
        probes[i]
    } else {
        PathProbe { current_exists: false, original_exists: false }
    }
}

/// What stands against reverting an entry, if anything: the name that the
/// batch gave is missing, or the name that it took is there again.
pub open spec fn violation(change: ChangeData, probe: PathProbe) -> Option<Seq<char>> {
    if !probe.current_exists {
        Some(
            "Directory not found: '"@ + change.destination
                + "' (expected from previous rename)"@,
        )
    } else if probe.original_exists {
        Some("Cannot revert: '"@ + change.source + "' already exists"@)
    } else {
        None
    }
}

/// Every violation among the first `count` entries, in order.
pub open spec fn violations(changes: Seq<ChangeData>, probes: Seq<PathProbe>, count: int) -> Seq<
    Seq<char>,
>
    decreases count,
{
    if count <= 0 {
        Seq::empty()
    } else {
        let before = violations(changes, probes, count - 1);
        match violation(changes[count - 1], probe_at(probes, count - 1)) {
            Some(v) => before.push(v),
            None => before,
        }
    }
}

/// The given texts with `; ` between them.
pub open spec fn joined(parts: Seq<Seq<char>>) -> Seq<char>
    decreases parts.len(),
{
    if parts.len() == 0 {
        Seq::empty()
    } else if parts.len() == 1 {
        parts[0]
    } else {
        joined(parts.drop_last()) + "; "@ + parts.last()
    }
}

/// The revert of a journal entry in `target_dir`: the directory goes from
/// the name that the batch gave back to the name that it took.
pub open spec fn revert_of(change: ChangeData, target_dir: Seq<char>) -> RevertData {
    RevertData {
        current_path: joined_path(target_dir, change.destination),
        current_name: change.destination,
        revert_path: joined_path(target_dir, change.source),
        revert_name: change.source,
        id: change.id,
    }
}

/// The content of the given reverts, in order.
pub open spec fn reverts_data(ops: Seq<RevertOperation>) -> Seq<RevertData> {
    Seq::new(ops.len(), |i: int| ops[i]@)
}

/// The reverts of the given entries, in order.
pub open spec fn reverts_of(changes: Seq<ChangeData>, target_dir: Seq<char>) -> Seq<RevertData> {
    Seq::new(changes.len(), |i: int| revert_of(changes[i], target_dir))
}

/// What a journal of a revert records of a revert: the directory went from
/// the name that it had to the name that it got back.
pub open spec fn reverted_change(op: RevertData) -> ChangeData {
    ChangeData { source: op.current_name, destination: op.revert_name, id: op.id, truncated: false }
}

/// What a journal of a revert records of the given reverts, in order.
pub open spec fn reverted_changes(ops: Seq<RevertOperation>) -> Seq<ChangeData> {
    Seq::new(ops.len(), |i: int| reverted_change(ops[i]@))
}

/// The direction of a revert of a journal.
pub open spec fn revert_direction(direction: HistoryDirection) -> RenameDirection {
    match direction {
        HistoryDirection::AnidbToReadable => RenameDirection::ReadableToAniDb,
        HistoryDirection::ReadableToAnidb => RenameDirection::AniDbToReadable,
    }
}

/// Builds the reverts of a journal and checks every one of them against what
/// was found in the directory. All violations are reported together; where
/// there is none, the reverts are given in the order of the journal.
pub fn prepare_revert_operations(
    history: &HistoryFile,
    target_dir: &str,
    probes: &Vec<PathProbe>,
) -> (result: Result<Vec<RevertOperation>, RevertError>)
    ensures
        ({
            let changes = changes_data(history.changes@);
            let found = violations(changes, probes@, changes.len() as int);
            match result {
                Ok(ops) => found.len() == 0 && reverts_data(ops@) == reverts_of(
                    changes,
                    target_dir@,
                ),
                Err(RevertError::ValidationFailed(m)) => found.len() > 0 && m@ == joined(found),
                Err(_) => false,
            }
        }),
{
    let ghost changes = changes_data(history.changes@);
    let mut operations: Vec<RevertOperation> = Vec::new();
    let mut errors: Vec<char> = Vec::new();
    let mut error_count: usize = 0;
    let mut i: usize = 0;
    while i < history.changes.len()
        invariant
            i <= history.changes.len(),
            changes == changes_data(history.changes@),
            error_count == violations(changes, probes@, i as int).len(),
            error_count <= i,
            errors@ == joined(violations(changes, probes@, i as int)),
            error_count == 0 ==> operations@.len() == i,
            error_count == 0 ==> forall|j: int|
                0 <= j < i ==> (#[trigger] operations@[j])@ == revert_of(changes[j], target_dir@),
        decreases history.changes.len() - i,
    {
        let entry = &history.changes[i];
        let probe = if i < probes.len() {
            probes[i]
        } else {
            PathProbe { current_exists: false, original_exists: false }
        };
        let ghost before = violations(changes, probes@, i as int);
        if !probe.current_exists || probe.original_exists {
            let mut message: Vec<char> = Vec::new();
            if !probe.current_exists {
                extend_str(&mut message, "Directory not found: '");
                extend_str(&mut message, entry.destination.as_str());
                extend_str(&mut message, "' (expected from previous rename)");
            } else {
                extend_str(&mut message, "Cannot revert: '");
                extend_str(&mut message, entry.source.as_str());
                extend_str(&mut message, "' already exists");
            }
            if error_count > 0 {
                extend_str(&mut errors, "; ");
            }
            extend_chars(&mut errors, &message);
            proof {
                let after = before.push(message@);
                assert(after.drop_last() =~= before);
            }
            error_count += 1;
        } else {
            operations.push(
                RevertOperation {
                    current_path: join_path(target_dir, entry.destination.as_str()),
                    current_name: entry.destination.clone(),
                    revert_path: join_path(target_dir, entry.source.as_str()),
                    revert_name: entry.source.clone(),
                    anidb_id: entry.anidb_id,
                },
            );
        }
        i += 1;
    }
    if error_count > 0 {
        Err(RevertError::ValidationFailed(string_of(&errors)))
    } else {
        Ok(operations)
    }
}

/// Makes the journal of a revert: the operation is `Revert`, the direction
/// is the other one than that of the reverted journal, and every entry goes
/// from the name that the directory had to the name that it got back.
pub fn create_revert_history(
    original: &HistoryFile,
    operations: &Vec<RevertOperation>,
    revert_time: Timestamp,
    tool_version: &str,
) -> (history: HistoryFile)
    ensures
        history.version@ == HISTORY_VERSION@,
        history.executed_at == revert_time,
        history.operation == OperationType::Revert,
        history.direction == original.direction.spec_reversed(),
        history.target_directory@ == original.target_directory@,
        history.tool_version@ == tool_version@,
        changes_data(history.changes@) == reverted_changes(operations@),
{
    let mut changes: Vec<HistoryEntry> = Vec::new();
    let mut i: usize = 0;
    while i < operations.len()
        invariant
            i <= operations.len(),
            changes@.len() == i,
            forall|j: int| 0 <= j < i ==> (#[trigger] changes@[j])@ == reverted_change(
                operations@[j]@,
            ),
        decreases operations.len() - i,
    {
        let op = &operations[i];
        changes.push(
            HistoryEntry {
                source: op.current_name.clone(),
                destination: op.revert_name.clone(),
                anidb_id: op.anidb_id,
                truncated: false,
            },
        );
        i += 1;
    }
    HistoryFile {
        version: HISTORY_VERSION.to_owned(),
        executed_at: revert_time,
        operation: OperationType::Revert,
        direction: original.direction.reversed(),
        target_directory: original.target_directory.clone(),
        tool_version: tool_version.to_owned(),
        changes,
    }
}

/// How far a revert has come.
#[derive(Debug, Clone, Copy, PartialEq, Eq, Structural)]
pub enum RevertPhase {
    /// Checked, nothing renamed yet.
    Ready,
    /// Renaming the directories back.
    Executing,
    /// Every directory is renamed back; the journal of the revert is due.
    Journaling,
    /// Finished.
    Done,
    /// Stopped at a failure. What was renamed back stays so.
    Aborted,
}

/// What happened outside since the last step.
#[derive(Debug)]
pub enum RevertEvent {
    /// The revert shall begin.
    Start,
    /// The rename that was asked for was tried.
    Renamed(Result<(), String>),
    /// The journal that was asked for was written to the path, or not.
    JournalWritten(Result<String, RevertError>),
}

/// What is to be done outside next.
#[derive(Debug)]
pub enum RevertAction {
    /// Rename the directory at `from` to `to`.
    Rename { from: String, to: String },
    /// Write the journal of the revert.
    WriteJournal,
    /// Nothing is left to do.
    Finish,
    /// Stop: the revert failed.
    Abort(RevertError),
    /// The event does not answer what the revert waits for. Nothing changed.
    Rejected,
}

/// The state of a revert, as far as its steps depend on it.
pub struct RevertState {
    pub phase: RevertPhase,
    pub operations: Seq<RevertData>,
    pub done: nat,
    pub dry_run: bool,
    pub journal_path: Option<Seq<char>>,
}

/// A revert in progress: the reverts of one journal, run one by one.
pub struct RevertTransaction {
    phase: RevertPhase,
    history: HistoryFile,
    history_path: String,
    operations: Vec<RevertOperation>,
    done: usize,
    dry_run: bool,
    journal_path: Option<String>,
}

/// `action` asks to rename the directory of `op` back.
pub open spec fn asks_revert(action: RevertAction, op: RevertData) -> bool {
    action matches RevertAction::Rename { from, to } && from@ == op.current_path && to@
        == op.revert_path
}

/// What one step of a revert does: the state after it and the action that
/// it asks for, given the state before it and the event.
///
/// A dry run finishes at once. Else the directories are renamed back in the
/// order of the journal; the first failure stops the revert, and what was
/// renamed back stays so. After the last rename the journal of the revert is
/// due, and the revert is done when that is written.
pub open spec fn revert_step(
    before: RevertState,
    event: RevertEvent,
    after: RevertState,
    action: RevertAction,
) -> bool {
    match (before.phase, event) {
        (RevertPhase::Ready, RevertEvent::Start) => if before.dry_run {
            after == (RevertState { phase: RevertPhase::Done, ..before })
                && action is Finish
        } else if before.operations.len() == 0 {
            after == (RevertState { phase: RevertPhase::Journaling, ..before })
                && action is WriteJournal
        } else {
            after == (RevertState { phase: RevertPhase::Executing, ..before })
                && asks_revert(action, before.operations[0])
        },
        (RevertPhase::Executing, RevertEvent::Renamed(Ok(_))) => if before.done + 1
            >= before.operations.len() {
            after == (RevertState {
                phase: RevertPhase::Journaling,
                done: before.operations.len(),
                ..before
            }) && action is WriteJournal
        } else {
            after == (RevertState { done: (before.done + 1) as nat, ..before }) && asks_revert(
                action,
                before.operations[before.done as int + 1],
            )
        },
        (RevertPhase::Executing, RevertEvent::Renamed(Err(reason))) => {
            &&& after == (RevertState { phase: RevertPhase::Aborted, ..before })
            &&& before.done < before.operations.len()
            &&& action matches RevertAction::Abort(RevertError::RenameError { from, to, source })
            &&& from@ == before.operations[before.done as int].current_name
            &&& to@ == before.operations[before.done as int].revert_name
            &&& source@ == reason@
        },
        (RevertPhase::Journaling, RevertEvent::JournalWritten(Ok(path))) => after == (RevertState {
            phase: RevertPhase::Done,
            journal_path: Some(path@),
            ..before
        }) && action is Finish,
        (RevertPhase::Journaling, RevertEvent::JournalWritten(Err(e))) => after == (RevertState {
            phase: RevertPhase::Aborted,
            ..before
        }) && action == RevertAction::Abort(e),
        _ => after == before && action is Rejected,
    }
}

/// The journal that a revert goes by, where reading gave one that can be
/// used: it is of the current schema version.
pub open spec fn usable_history(contents: Result<HistoryFile, ReadFailure>) -> Option<
    HistoryFile,
> {
    match contents {
        Ok(history) => if history.version@ == HISTORY_VERSION@ {
            Some(history)
        } else {
            None
        },
        Err(_) => None,
    }
}

/// Whether a journal is for the directory that the caller named. A caller
/// who names none has nothing to confirm.
pub open spec fn directory_confirmed(history: HistoryFile, target_dir: Option<&str>) -> bool {
    match target_dir {
        Some(dir) => same_path(history.target_directory@, dir@),
        None => true,
    }
}

impl RevertTransaction {
    /// The state of the revert.
    pub closed spec fn state(&self) -> RevertState {
        RevertState {
            phase: self.phase,
            operations: reverts_data(self.operations@),
            done: self.done as nat,
            dry_run: self.dry_run,
            journal_path: crate::parser::opt_text(self.journal_path),
        }
    }

    /// The journal that is reverted.
    pub closed spec fn history(&self) -> HistoryFile {
        self.history
    }

    /// The path of the journal that is reverted.
    pub closed spec fn history_path(&self) -> Seq<char> {
        self.history_path@
    }

    /// No more reverts ran than there are; none ran before the start, and
    /// while reverts are run, one is left to run.
    #[verifier::type_invariant]
    spec fn inv(&self) -> bool {
        &&& self.done <= self.operations@.len()
        &&& (self.phase == RevertPhase::Ready ==> self.done == 0)
        &&& (self.phase == RevertPhase::Executing ==> self.done < self.operations@.len())
    }

    /// How far the revert has come.
    pub fn phase(&self) -> (phase: RevertPhase)
        ensures
            phase == self.state().phase,
    {
        self.phase
    }

    /// The reverts, in the order of the journal.
    pub fn operations(&self) -> (ops: &Vec<RevertOperation>)
        ensures
            reverts_data(ops@) == self.state().operations,
    {
        &self.operations
    }

    /// The directory whose subdirectories are renamed back.
    pub fn target_directory(&self) -> (dir: &str)
        ensures
            dir@ == self.history().target_directory@,
    {
        self.history.target_directory.as_str()
    }

    /// Advances the revert by one event: see [`revert_step`].
    pub fn step(&mut self, event: RevertEvent) -> (action: RevertAction)
        ensures
            revert_step(old(self).state(), event, final(self).state(), action),
            final(self).history() == old(self).history(),
            final(self).history_path() == old(self).history_path(),
    {
        proof {
            use_type_invariant(&*self);
        }
        match (self.phase, event) {
            (RevertPhase::Ready, RevertEvent::Start) => {
                if self.dry_run {
                    self.phase = RevertPhase::Done;
                    RevertAction::Finish
                } else if self.operations.len() == 0 {
                    self.phase = RevertPhase::Journaling;
                    RevertAction::WriteJournal
                } else {
                    self.phase = RevertPhase::Executing;
                    self.ask(0)
                }
            },
            (RevertPhase::Executing, RevertEvent::Renamed(Ok(_))) => {
                let count = self.operations.len();
                if self.done + 1 >= count {
                    self.phase = RevertPhase::Journaling;
                    self.done = count;
                    RevertAction::WriteJournal
                } else {
                    self.done = self.done + 1;
                    self.ask(self.done)
                }
            },
            (RevertPhase::Executing, RevertEvent::Renamed(Err(reason))) => {
                self.phase = RevertPhase::Aborted;
                let op = &self.operations[self.done];
                RevertAction::Abort(
                    RevertError::RenameError {
                        from: op.current_name.clone(),
                        to: op.revert_name.clone(),
                        source: reason,
                    },
                )
            },
            (RevertPhase::Journaling, RevertEvent::JournalWritten(Ok(path))) => {
                self.phase = RevertPhase::Done;
                self.journal_path = Some(path);
                RevertAction::Finish
            },
            (RevertPhase::Journaling, RevertEvent::JournalWritten(Err(e))) => {
                self.phase = RevertPhase::Aborted;
                RevertAction::Abort(e)
            },
            _ => RevertAction::Rejected,
        }
    }

    /// The action that asks for revert `i`.
    fn ask(&self, i: usize) -> (action: RevertAction)
        requires
            i < self.operations@.len(),
        ensures
            asks_revert(action, self.operations@[i as int]@),
    {
        let op = &self.operations[i];
        RevertAction::Rename { from: op.current_path.clone(), to: op.revert_path.clone() }
    }

    /// The journal of this revert, run at `revert_time`.
    pub fn revert_history(&self, revert_time: Timestamp, tool_version: &str) -> (history:
        HistoryFile)
        ensures
            history.version@ == HISTORY_VERSION@,
            history.executed_at == revert_time,
            history.operation == OperationType::Revert,
            history.direction == self.history().direction.spec_reversed(),
            history.target_directory@ == self.history().target_directory@,
            history.tool_version@ == tool_version@,
            changes_data(history.changes@) == Seq::new(
                self.state().operations.len(),
                |i: int| reverted_change(self.state().operations[i]),
            ),
    {
        let history = create_revert_history(
            &self.history,
            &self.operations,
            revert_time,
            tool_version,
        );
        history
    }

    /// Where the journal of this revert, run at `revert_time`, is written:
    /// in the target directory, named after `revert_time`.
    pub fn journal_plan(&self, revert_time: &Timestamp) -> (plan: WritePlan)
        ensures
            plan.path@ == joined_path(
                self.history().target_directory@,
                journal_file_name(revert_time.seconds()),
            ),
            plan.temp_path@ == path_with_extension(plan.path@, "json.tmp"@),
    {
        let filename = self.history.generate_revert_filename(revert_time);
        write_to_path(join_path(self.history.target_directory.as_str(), filename.as_str()))
    }

    /// What the revert did or would do.
    pub fn into_result(self) -> (result: RevertResult)
        ensures
            reverts_data(result.operations@) == self.state().operations,
            result.direction == revert_direction(self.history().direction),
            result.original_history@ == self.history_path(),
            result.dry_run == self.state().dry_run,
            crate::parser::opt_text(result.revert_history_path) == self.state().journal_path,
    {
        let direction = match self.history.direction {
            HistoryDirection::AnidbToReadable => RenameDirection::ReadableToAniDb,
            HistoryDirection::ReadableToAnidb => RenameDirection::AniDbToReadable,
        };
        RevertResult {
            operations: self.operations,
            direction,
            original_history: self.history_path,
            dry_run: self.dry_run,
            revert_history_path: self.journal_path,
        }
    }
}

/// Begins a revert from what reading a journal gave and what was found in
/// the directory.
///
/// The revert is refused, with nothing renamed, where the journal cannot be
/// used, where the caller names a directory that is not the journal's, and
/// where an entry cannot be reverted. Else the reverts are ready to run.
pub fn revert_from_history(
    history_path: &str,
    contents: Result<HistoryFile, ReadFailure>,
    target_dir: Option<&str>,
    probes: &Vec<PathProbe>,
    options: &RevertOptions,
) -> (result: Result<RevertTransaction, RevertError>)
    ensures
        match result {
            Ok(revert) => {
                &&& usable_history(contents) matches Some(history)
                &&& directory_confirmed(history, target_dir)
                &&& violations(
                    changes_data(history.changes@),
                    probes@,
                    history.changes@.len() as int,
                ).len() == 0
                &&& revert.history() == history
                &&& revert.history_path() == history_path@
                &&& revert.state() == (RevertState {
                    phase: RevertPhase::Ready,
                    operations: reverts_of(
                        changes_data(history.changes@),
                        history.target_directory@,
                    ),
                    done: 0,
                    dry_run: options.dry_run,
                    journal_path: None,
                })
            },
            Err(RevertError::History(e)) => match usable_history(contents) {
                None => checked_history(contents, Err(e)),
                Some(history) => {
                    &&& !directory_confirmed(history, target_dir)
                    &&& e matches HistoryError::ReadError(m)
                    &&& m@ == "History file is for different directory: "@ + quoted_path(
                        history.target_directory@,
                    )
                },
            },
            Err(RevertError::ValidationFailed(m)) => {
                &&& usable_history(contents) matches Some(history)
                &&& directory_confirmed(history, target_dir)
                &&& ({
                    let found = violations(
                        changes_data(history.changes@),
                        probes@,
                        history.changes@.len() as int,
                    );
                    found.len() > 0 && m@ == joined(found)
                })
            },
            Err(_) => false,
        },
{
    let history = match read_history(contents) {
        Ok(history) => history,
        Err(e) => {
            return Err(RevertError::History(e));
        },
    };
    if let Some(dir) = target_dir {
        if let Err(e) = validate_for_revert(&history, dir) {
            return Err(RevertError::History(e));
        }
    }
    let operations = match prepare_revert_operations(
        &history,
        history.target_directory.as_str(),
        probes,
    ) {
        Ok(operations) => operations,
        Err(e) => {
            return Err(e);
        },
    };
    Ok(
        RevertTransaction {
            phase: RevertPhase::Ready,
            history,
            history_path: history_path.to_owned(),
            operations,
            done: 0,
            dry_run: options.dry_run,
            journal_path: None,
        },
    )
}

} // verus!
