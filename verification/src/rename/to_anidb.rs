//! The transaction that renames a batch from the readable scheme to the
//! compact scheme.
//!
//! This direction needs no metadata: the new name is built from the tag and
//! the id that the old name carries. Every operation is prepared and every
//! destination is checked before the first directory is renamed; the first
//! failure stops the transaction.

use super::name_builder::{anidb_name, build_anidb_name};
use super::to_readable::{
    ActionData, FailureData, RenameAction, RenameError, RenameEvent, RenamePhase,
};
use super::types::{
    operation_in, operations_data, OperationData, RenameDirection, RenameOperation, RenameResult,
};
use crate::parser::{ParsedDirectory, ParsedName};
use crate::validator::ValidationResult;
use vstd::prelude::*;

verus! {

/// The state of a transaction towards the compact scheme, as far as its
/// steps depend on it.
pub struct ReverseState {
    pub phase: RenamePhase,
    pub target_dir: Seq<char>,
    /// The names of the batch, in order.
    pub entries: Seq<ParsedName>,
    pub dry_run: bool,
    /// The operations that are prepared, in order.
    pub operations: Seq<OperationData>,
    /// While preparing: the entry that is being prepared. While executing:
    /// the operation that is being run.
    pub cursor: nat,
    /// The operation whose destination is being checked.
    pub pending: Option<OperationData>,
}

/// The operation that renames the directory of `entry` in `target_dir` to
/// its compact name.
pub open spec fn reverse_operation(target_dir: Seq<char>, entry: ParsedName) -> OperationData {
    operation_in(target_dir, entry.name(), anidb_name(entry.tag(), entry.id()), entry.id(), false)
}

/// The state with `op` added to the prepared operations and the next entry
/// up.
pub open spec fn reverse_with(s: ReverseState, op: OperationData) -> ReverseState {
    ReverseState { operations: s.operations.push(op), cursor: s.cursor + 1, pending: None, ..s }
}

/// Prepares entries from the cursor on, as far as that goes without asking
/// for anything outside. In a dry run every operation is added at once.
/// Else the destination of the next operation is to be checked. After the
/// last entry the batch is prepared.
pub open spec fn reverse_advanced(s: ReverseState) -> (ReverseState, ActionData)
    decreases s.entries.len() - s.cursor,
{
    if s.cursor >= s.entries.len() {
        (ReverseState { phase: RenamePhase::Prepared, ..s }, ActionData::Planned)
    } else {
        let op = reverse_operation(s.target_dir, s.entries[s.cursor as int]);
        if s.dry_run {
            reverse_advanced(reverse_with(s, op))
        } else {
            (
                ReverseState { pending: Some(op), ..s },
                ActionData::CheckDestination { path: op.destination_path },
            )
        }
    }
}

/// The action that asks to run operation `i`.
pub open spec fn reverse_runs(s: ReverseState, i: int) -> ActionData {
    ActionData::Rename { from: s.operations[i].source_path, to: s.operations[i].destination_path }
}

/// The failure of the operation `op` for the given reason.
pub open spec fn failed_operation(op: OperationData, reason: Seq<char>) -> FailureData {
    FailureData::FilesystemError { from: op.source_name, to: op.destination_name, source: reason }
}

/// What one step does: the state after it and the action that it asks for.
///
/// While the batch is prepared, a destination that is taken stops the
/// transaction: no directory has been renamed by then. Once the batch is
/// prepared and shall be run, the operations are run in order, and a rename
/// that fails stops the transaction. An event that does not answer what the
/// transaction waits for changes nothing and is rejected.
pub open spec fn reverse_step(s: ReverseState, event: RenameEvent) -> (ReverseState, ActionData) {
    match (s.phase, event) {
        (RenamePhase::Idle, RenameEvent::Start { client_error }) => reverse_advanced(
            ReverseState { phase: RenamePhase::Preparing, ..s },
        ),
        (RenamePhase::Preparing, RenameEvent::DestinationChecked { exists }) => match s.pending {
            Some(op) => if exists {
                (
                    ReverseState { phase: RenamePhase::Aborted, ..s },
                    ActionData::Abort(failed_operation(op, "Destination already exists"@)),
                )
            } else {
                reverse_advanced(reverse_with(s, op))
            },
            None => (s, ActionData::Rejected),
        },
        (RenamePhase::Prepared, RenameEvent::Execute) => if s.dry_run || s.operations.len() == 0 {
            (ReverseState { phase: RenamePhase::Committed, ..s }, ActionData::Finish)
        } else {
            let next = ReverseState { phase: RenamePhase::Executing, cursor: 0, ..s };
            (next, reverse_runs(next, 0))
        },
        (RenamePhase::Executing, RenameEvent::Renamed(outcome)) => if s.cursor
            < s.operations.len() {
            match outcome {
                Ok(_) => if s.cursor + 1 >= s.operations.len() {
                    (ReverseState { phase: RenamePhase::Committed, ..s }, ActionData::Finish)
                } else {
                    let next = ReverseState { cursor: s.cursor + 1, ..s };
                    (next, reverse_runs(next, s.cursor as int + 1))
                },
                Err(reason) => (
                    ReverseState { phase: RenamePhase::Aborted, ..s },
                    ActionData::Abort(failed_operation(s.operations[s.cursor as int], reason@)),
                ),
            }
        } else {
            (s, ActionData::Rejected)
        },
        _ => (s, ActionData::Rejected),
    }
}

/// The state in which the transaction of a batch towards the compact
/// scheme begins.
pub open spec fn reverse_initial_state(
    target_dir: Seq<char>,
    batch: Seq<ParsedName>,
    dry_run: bool,
) -> ReverseState {
    ReverseState {
        phase: RenamePhase::Idle,
        target_dir,
        entries: batch,
        dry_run,
        operations: Seq::empty(),
        cursor: 0,
        pending: None,
    }
}

/// A transaction towards the compact scheme in progress.
pub struct AniDbRenameTransaction {
    phase: RenamePhase,
    target_dir: String,
    entries: Vec<ParsedDirectory>,
    result: RenameResult,
    cursor: usize,
    pending: Option<RenameOperation>,
}

/// The content of the given names, in order.
pub open spec fn parsed_data(entries: Seq<ParsedDirectory>) -> Seq<ParsedName> {
    Seq::new(entries.len(), |i: int| entries[i]@)
}

impl AniDbRenameTransaction {
    /// The state of the transaction.
    pub closed spec fn state(&self) -> ReverseState {
        ReverseState {
            phase: self.phase,
            target_dir: self.target_dir@,
            entries: parsed_data(self.entries@),
            dry_run: self.result.dry_run,
            operations: operations_data(self.result.operations@),
            cursor: self.cursor as nat,
            pending: match self.pending {
                Some(op) => Some(op@),
                None => None,
            },
        }
    }

    /// The operations that are prepared, and the direction of the batch.
    pub closed spec fn result(&self) -> RenameResult {
        self.result
    }

    /// The direction is from the readable to the compact scheme; nothing
    /// has happened before the start; an operation is pending only for an
    /// entry that is being prepared; and while operations are run, one is
    /// left to run.
    #[verifier::type_invariant]
    spec fn inv(&self) -> bool {
        &&& self.result.direction == RenameDirection::ReadableToAniDb
        &&& (self.phase == RenamePhase::Idle ==> self.cursor == 0 && self.pending is None
            && self.result.operations@.len() == 0)
        &&& (self.phase == RenamePhase::Preparing ==> self.cursor <= self.entries@.len())
        &&& (self.pending is Some ==> self.cursor < self.entries@.len() && (self.phase
            == RenamePhase::Preparing || self.phase == RenamePhase::Aborted))
        &&& (self.phase == RenamePhase::Executing ==> self.cursor < self.result.operations@.len())
    }

    /// How far the transaction has come.
    pub fn phase(&self) -> (phase: RenamePhase)
        ensures
            phase == self.state().phase,
    {
        self.phase
    }

    /// What the transaction did or would do so far.
    pub fn outcome(&self) -> (result: &RenameResult)
        ensures
            *result == self.result(),
            operations_data(result.operations@) == self.state().operations,
            result.dry_run == self.state().dry_run,
            result.direction == RenameDirection::ReadableToAniDb,
    {
        proof {
            use_type_invariant(self);
        }
        &self.result
    }

    /// The operation for entry `index`.
    fn plan(&self, index: usize) -> (op: RenameOperation)
        requires
            index < self.entries@.len(),
        ensures
            op@ == reverse_operation(self.target_dir@, self.entries@[index as int]@),
    {
        let entry = &self.entries[index];
        let name = build_anidb_name(entry.series_tag(), entry.anidb_id());
        RenameOperation::in_directory(
            self.target_dir.as_str(),
            entry.original_name(),
            name,
            entry.anidb_id(),
            false,
        )
    }

    /// The action that asks to run operation `index`.
    fn run(&self, index: usize) -> (action: RenameAction)
        requires
            index < self.result.operations@.len(),
        ensures
            action@ == reverse_runs(self.state(), index as int),
    {
        let op = &self.result.operations[index];
        RenameAction::Rename { from: op.source_path.clone(), to: op.destination_path.clone() }
    }

    /// Adds `op` to the prepared operations and moves to the next entry.
    fn accept(&mut self, op: RenameOperation)
        requires
            old(self).cursor < old(self).entries@.len(),
            old(self).phase == RenamePhase::Preparing,
        ensures
            final(self).state() == reverse_with(old(self).state(), op@),
            final(self).result.direction == old(self).result.direction,
            final(self).cursor == old(self).cursor + 1,
            final(self).entries == old(self).entries,
            final(self).phase == old(self).phase,
    {
        proof {
            use_type_invariant(&*self);
        }
        let ghost before = self.state();
        // The cursor is below the number of entries, which a `usize` holds.
        let _ = self.entries.len();
        self.pending = None;
        // The result is taken out while the operation is added to it.
        let mut result = RenameResult::new(RenameDirection::ReadableToAniDb, self.result.dry_run);
        std::mem::swap(&mut result, &mut self.result);
        result.add_operation(op);
        std::mem::swap(&mut result, &mut self.result);
        self.cursor = self.cursor + 1;
        assert(self.state().operations =~= before.operations.push(op@));
    }

    /// Prepares entries from the cursor on: see [`reverse_advanced`].
    fn advance(&mut self) -> (action: RenameAction)
        requires
            old(self).phase == RenamePhase::Preparing,
            old(self).pending is None,
        ensures
            (final(self).state(), action@) == reverse_advanced(old(self).state()),
    {
        proof {
            use_type_invariant(&*self);
        }
        let ghost start = self.state();
        loop
            invariant
                self.phase == RenamePhase::Preparing,
                self.pending is None,
                self.cursor <= self.entries@.len(),
                self.result.direction == RenameDirection::ReadableToAniDb,
                start == old(self).state(),
                reverse_advanced(self.state()) == reverse_advanced(start),
            decreases self.entries@.len() - self.cursor,
        {
            if self.cursor >= self.entries.len() {
                self.phase = RenamePhase::Prepared;
                return RenameAction::Planned;
            }
            let op = self.plan(self.cursor);
            if self.result.dry_run {
                self.accept(op);
            } else {
                let path = op.destination_path.clone();
                self.pending = Some(op);
                return RenameAction::CheckDestination { path };
            }
        }
    }

    /// Advances the transaction by one event: see [`reverse_step`].
    pub fn step(&mut self, event: RenameEvent) -> (action: RenameAction)
        ensures
            (final(self).state(), action@) == reverse_step(old(self).state(), event),
    {
        proof {
            use_type_invariant(&*self);
        }
        match (self.phase, event) {
            (RenamePhase::Idle, RenameEvent::Start { client_error }) => {
                self.phase = RenamePhase::Preparing;
                self.advance()
            },
            (RenamePhase::Preparing, RenameEvent::DestinationChecked { exists }) => {
                if exists {
                    match &self.pending {
                        Some(op) => {
                            let failure = RenameError::FilesystemError {
                                from: op.source_name.clone(),
                                to: op.destination_name.clone(),
                                source: "Destination already exists".to_owned(),
                            };
                            self.phase = RenamePhase::Aborted;
                            RenameAction::Abort(failure)
                        },
                        None => RenameAction::Rejected,
                    }
                } else {
                    let mut pending: Option<RenameOperation> = None;
                    std::mem::swap(&mut pending, &mut self.pending);
                    match pending {
                        Some(op) => {
                            self.accept(op);
                            self.advance()
                        },
                        None => RenameAction::Rejected,
                    }
                }
            },
            (RenamePhase::Prepared, RenameEvent::Execute) => {
                if self.result.dry_run || self.result.operations.len() == 0 {
                    self.phase = RenamePhase::Committed;
                    RenameAction::Finish
                } else {
                    self.cursor = 0;
                    self.phase = RenamePhase::Executing;
                    self.run(0)
                }
            },
            (RenamePhase::Executing, RenameEvent::Renamed(outcome)) => {
                let count = self.result.operations.len();
                match outcome {
                    Ok(_) => {
                        if self.cursor + 1 >= count {
                            self.phase = RenamePhase::Committed;
                            RenameAction::Finish
                        } else {
                            self.cursor = self.cursor + 1;
                            self.run(self.cursor)
                        }
                    },
                    Err(reason) => {
                        self.phase = RenamePhase::Aborted;
                        let op = &self.result.operations[self.cursor];
                        RenameAction::Abort(
                            RenameError::FilesystemError {
                                from: op.source_name.clone(),
                                to: op.destination_name.clone(),
                                source: reason,
                            },
                        )
                    },
                }
            },
            _ => RenameAction::Rejected,
        }
    }

    /// What the transaction did or would do.
    pub fn into_result(self) -> (result: RenameResult)
        ensures
            result == self.result(),
            operations_data(result.operations@) == self.state().operations,
            result.dry_run == self.state().dry_run,
            result.direction == RenameDirection::ReadableToAniDb,
    {
        proof {
            use_type_invariant(&self);
        }
        self.result
    }
}

/// Begins the transaction that renames a validated batch in `target_dir`
/// to the compact scheme.
pub fn rename_to_anidb(
    target_dir: &str,
    validation: &ValidationResult,
    dry_run: bool,
) -> (transaction: AniDbRenameTransaction)
    ensures
        transaction.state() == reverse_initial_state(target_dir@, validation.names(), dry_run),
{
    let mut entries: Vec<ParsedDirectory> = Vec::new();
    let mut i: usize = 0;
    while i < validation.directories.len()
        invariant
            i <= validation.directories.len(),
            entries@.len() == i,
            forall|j: int| 0 <= j < i ==> (#[trigger] entries@[j])@ == validation.directories@[j]@,
        decreases validation.directories.len() - i,
    {
        entries.push(validation.directories[i].duplicate());
        i += 1;
    }
    assert(parsed_data(entries@) =~= validation.names());
    let transaction = AniDbRenameTransaction {
        phase: RenamePhase::Idle,
        target_dir: target_dir.to_owned(),
        entries,
        result: RenameResult::new(RenameDirection::ReadableToAniDb, dry_run),
        cursor: 0,
        pending: None,
    };
    assert(transaction.state().operations =~= Seq::<OperationData>::empty());
    transaction
}

} // verus!
