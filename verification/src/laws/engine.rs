//! Laws of the transactions: a dry run has no effect outside, and the
//! journal of every batch is one that can be reverted.

use super::names::{
    ends_with_bracket, ends_with_digit, lemma_built_compact_name_ends_with_digit,
    lemma_built_readable_name_ends_with_bracket, lemma_compact_name_ends_with_digit,
    lemma_readable_name_ends_with_bracket,
};
use super::revert::schemes_apart;
use crate::api::AnimeData;
use crate::cache::CacheStore;
use crate::history::{change_of, ChangeData};
use crate::parser::{classify, AniDbName, ParsedName};
use crate::rename::{
    advanced, caches_metadata, compact_entries, initial_state, placeholder, planned_operation,
    rename_step, reverse_advanced, reverse_initial_state, reverse_operation, reverse_step,
    reverse_with, with_operation, ActionData, FailureData, OperationData, RenameEvent, RenamePhase, RenameState, ReverseState,
};
use crate::timestamp::Timestamp;
use vstd::prelude::*;

verus! {

/// A dry run that waits for nothing outside: it is neither preparing nor
/// executing.
pub open spec fn dry_and_quiet(s: RenameState) -> bool {
    s.dry_run && s.phase != RenamePhase::Preparing && s.phase != RenamePhase::Executing
}

/// An action that asks for nothing outside.
pub open spec fn asks_nothing(action: ActionData) -> bool {
    action is Planned || action is Finish || action is Abort || action is Rejected
}

/// In a dry run, preparing goes through the whole batch at once and asks
/// for nothing outside.
proof fn lemma_dry_run_prepares_at_once(s: RenameState, cache: CacheStore, now: Timestamp)
    requires
        s.dry_run,
    ensures
        advanced(s, cache, now).0.phase == RenamePhase::Prepared,
        advanced(s, cache, now).0.dry_run,
        advanced(s, cache, now).1 is Planned,
    decreases s.entries.len() - s.cursor,
{
    if s.cursor < s.entries.len() {
        let entry = s.entries[s.cursor as int];
        match cache.lookup(entry.id, now) {
            Some(cached) => {
                let op = crate::rename::planned_operation(
                    s.target_dir,
                    entry,
                    cached@.info,
                    s.max_length,
                );
                lemma_dry_run_prepares_at_once(crate::rename::with_operation(s, op), cache, now);
            },
            None => {
                let op = crate::rename::planned_operation(
                    s.target_dir,
                    entry,
                    crate::rename::placeholder(entry.id),
                    s.max_length,
                );
                lemma_dry_run_prepares_at_once(crate::rename::with_operation(s, op), cache, now);
            },
        }
    }
}

/// A dry run has no effect outside: no step of it asks for a lookup at the
/// provider, for a check of a destination or for a rename, and no step of
/// it puts anything into the cache.
pub proof fn lemma_dry_run_has_no_effect(
    s: RenameState,
    cache: CacheStore,
    event: RenameEvent,
    now: Timestamp,
)
    requires
        dry_and_quiet(s),
    ensures
        dry_and_quiet(rename_step(s, cache, event, now).0),
        asks_nothing(rename_step(s, cache, event, now).1),
        !caches_metadata(s, event),
{
    if s.phase == RenamePhase::Idle {
        lemma_dry_run_prepares_at_once(
            RenameState { phase: RenamePhase::Preparing, ..s },
            cache,
            now,
        );
    }
}

/// What a journal records of the given operations, in order.
pub open spec fn changes_of_operations(ops: Seq<OperationData>) -> Seq<ChangeData> {
    Seq::new(ops.len(), |i: int| change_of(ops[i]))
}

/// An operation from a name that ends with a digit to one that ends with
/// `]`.
pub open spec fn leads_to_readable(op: OperationData) -> bool {
    ends_with_digit(op.source_name) && ends_with_bracket(op.destination_name)
}

/// A transaction over names of the compact scheme whose operations all lead
/// to the readable scheme.
pub open spec fn orderly(s: RenameState) -> bool {
    &&& forall|i: int| 0 <= i < s.entries.len() ==> ends_with_digit((#[trigger] s.entries[i]).name)
    &&& forall|i: int| 0 <= i < s.operations.len() ==> leads_to_readable(#[trigger] s.operations[i])
    &&& (s.pending matches Some(op) ==> leads_to_readable(op))
}

/// The operation that is planned for a name of the compact scheme leads to
/// the readable scheme, whatever the metadata.
proof fn lemma_planned_leads_to_readable(
    target_dir: Seq<char>,
    entry: AniDbName,
    info: AnimeData,
    max_length: nat,
)
    requires
        ends_with_digit(entry.name),
    ensures
        leads_to_readable(planned_operation(target_dir, entry, info, max_length)),
{
    lemma_built_readable_name_ends_with_bracket(entry.tag, info, max_length);
}

/// Preparing keeps a transaction orderly.
proof fn lemma_advanced_is_orderly(s: RenameState, cache: CacheStore, now: Timestamp)
    requires
        orderly(s),
    ensures
        orderly(advanced(s, cache, now).0),
    decreases s.entries.len() - s.cursor,
{
    if s.cursor < s.entries.len() {
        let entry = s.entries[s.cursor as int];
        let info = match cache.lookup(entry.id, now) {
            Some(cached) => cached@.info,
            None => placeholder(entry.id),
        };
        let op = planned_operation(s.target_dir, entry, info, s.max_length);
        lemma_planned_leads_to_readable(s.target_dir, entry, info, s.max_length);
        if s.dry_run {
            let next = with_operation(s, op);
            assert forall|i: int| 0 <= i < next.operations.len() implies leads_to_readable(
                #[trigger] next.operations[i],
            ) by {
                if i < s.operations.len() {
                    assert(next.operations[i] == s.operations[i]);
                }
            }
            lemma_advanced_is_orderly(next, cache, now);
        }
    }
}

/// Every step keeps a transaction orderly: whatever happens, the operations
/// of a batch of compact names lead to the readable scheme.
pub proof fn lemma_step_keeps_orderly(
    s: RenameState,
    cache: CacheStore,
    event: RenameEvent,
    now: Timestamp,
)
    requires
        orderly(s),
    ensures
        orderly(rename_step(s, cache, event, now).0),
{
    match (s.phase, event) {
        (RenamePhase::Idle, RenameEvent::Start { client_error }) => {
            lemma_advanced_is_orderly(
                RenameState { phase: RenamePhase::Preparing, ..s },
                cache,
                now,
            );
        },
        (RenamePhase::Preparing, RenameEvent::Metadata(Ok(info))) => {
            if s.pending is None && s.cursor < s.entries.len() {
                lemma_planned_leads_to_readable(
                    s.target_dir,
                    s.entries[s.cursor as int],
                    info@,
                    s.max_length,
                );
            }
        },
        (RenamePhase::Preparing, RenameEvent::DestinationChecked { exists }) => {
            if let Some(op) = s.pending {
                if !exists {
                    let next = with_operation(s, op);
                    assert forall|i: int| 0 <= i < next.operations.len() implies leads_to_readable(
                        #[trigger] next.operations[i],
                    ) by {
                        if i < s.operations.len() {
                            assert(next.operations[i] == s.operations[i]);
                        }
                    }
                    lemma_advanced_is_orderly(next, cache, now);
                }
            }
        },
        _ => {},
    }
}

/// The journal of an orderly transaction holds changes between the schemes,
/// so that [`super::lemma_rename_then_revert_restores`] holds of it.
pub proof fn lemma_orderly_journal_is_apart(s: RenameState)
    requires
        orderly(s),
    ensures
        schemes_apart(changes_of_operations(s.operations)),
{
    let changes = changes_of_operations(s.operations);
    assert forall|i: int| 0 <= i < changes.len() implies ends_with_digit(
        (#[trigger] changes[i]).source,
    ) && ends_with_bracket(changes[i].destination) by {
        assert(leads_to_readable(s.operations[i]));
    }
}

/// The transaction of a validated batch starts orderly: the names of a
/// batch in the compact scheme end with digits.
pub proof fn lemma_classified_entries_end_with_digits(names: Seq<ParsedName>)
    requires
        forall|i: int| 0 <= i < names.len() ==> classify((#[trigger] names[i]).name()) == Some(
            names[i],
        ),
    ensures
        forall|i: int|
            0 <= i < compact_entries(names).len() ==> ends_with_digit(
                (#[trigger] compact_entries(names)[i]).name,
            ),
    decreases names.len(),
{
    if names.len() > 0 {
        let before = names.drop_last();
        assert forall|i: int| 0 <= i < before.len() implies classify(
            (#[trigger] before[i]).name(),
        ) == Some(before[i]) by {
            assert(before[i] == names[i]);
        }
        lemma_classified_entries_end_with_digits(before);
        if let ParsedName::AniDb(n) = names.last() {
            assert(classify(names[names.len() - 1].name()) == Some(names.last()));
            lemma_compact_name_ends_with_digit(n.name);
        }
    }
}

/// An operation from a name that ends with `]` to one that ends with a
/// digit.
pub open spec fn leads_to_compact(op: OperationData) -> bool {
    ends_with_bracket(op.source_name) && ends_with_digit(op.destination_name)
}

/// A transaction over names of the readable scheme whose operations all
/// lead to the compact scheme.
pub open spec fn orderly_back(s: ReverseState) -> bool {
    &&& forall|i: int|
        0 <= i < s.entries.len() ==> ends_with_bracket((#[trigger] s.entries[i]).name())
    &&& forall|i: int| 0 <= i < s.operations.len() ==> leads_to_compact(#[trigger] s.operations[i])
    &&& (s.pending matches Some(op) ==> leads_to_compact(op))
}

/// Going on keeps a transaction towards the compact scheme orderly.
proof fn lemma_reverse_advanced_is_orderly(s: ReverseState)
    requires
        orderly_back(s),
    ensures
        orderly_back(reverse_advanced(s).0),
    decreases s.entries.len() - s.cursor,
{
    if s.cursor < s.entries.len() {
        let entry = s.entries[s.cursor as int];
        let op = reverse_operation(s.target_dir, entry);
        lemma_built_compact_name_ends_with_digit(entry.tag(), entry.id());
        if s.dry_run {
            lemma_reverse_with_is_orderly(s, op);
            lemma_reverse_advanced_is_orderly(reverse_with(s, op));
        }
    }
}

/// Adding an operation that leads to the compact scheme keeps a transaction
/// orderly.
proof fn lemma_reverse_with_is_orderly(s: ReverseState, op: OperationData)
    requires
        orderly_back(s),
        leads_to_compact(op),
    ensures
        orderly_back(reverse_with(s, op)),
{
    let next = reverse_with(s, op);
    assert forall|i: int| 0 <= i < next.operations.len() implies leads_to_compact(
        #[trigger] next.operations[i],
    ) by {
        if i < s.operations.len() {
            assert(next.operations[i] == s.operations[i]);
        }
    }
}

/// Every step keeps a transaction towards the compact scheme orderly:
/// whatever happens, the operations of a batch of readable names lead to
/// the compact scheme.
pub proof fn lemma_reverse_step_keeps_orderly(s: ReverseState, event: RenameEvent)
    requires
        orderly_back(s),
    ensures
        orderly_back(reverse_step(s, event).0),
{
    match (s.phase, event) {
        (RenamePhase::Idle, RenameEvent::Start { client_error }) => {
            lemma_reverse_advanced_is_orderly(
                ReverseState { phase: RenamePhase::Preparing, ..s },
            );
        },
        (RenamePhase::Preparing, RenameEvent::DestinationChecked { exists }) => {
            if let Some(op) = s.pending {
                if !exists {
                    lemma_reverse_with_is_orderly(s, op);
                    lemma_reverse_advanced_is_orderly(reverse_with(s, op));
                }
            }
        },
        _ => {},
    }
}

/// The journal of an orderly transaction towards the compact scheme holds
/// changes between the schemes, so that
/// [`super::lemma_rename_then_revert_restores`] holds of it.
pub proof fn lemma_orderly_back_journal_is_apart(s: ReverseState)
    requires
        orderly_back(s),
    ensures
        schemes_apart(changes_of_operations(s.operations)),
{
    let changes = changes_of_operations(s.operations);
    assert forall|i: int| 0 <= i < changes.len() implies ends_with_bracket(
        (#[trigger] changes[i]).source,
    ) && ends_with_digit(changes[i].destination) by {
        assert(leads_to_compact(s.operations[i]));
    }
}

/// In a dry run towards the compact scheme, preparing goes through the
/// whole batch at once and asks for nothing outside.
proof fn lemma_reverse_dry_run_prepares_at_once(s: ReverseState)
    requires
        s.dry_run,
    ensures
        reverse_advanced(s).0.phase == RenamePhase::Prepared,
        reverse_advanced(s).0.dry_run,
        reverse_advanced(s).1 is Planned,
    decreases s.entries.len() - s.cursor,
{
    if s.cursor < s.entries.len() {
        let op = reverse_operation(s.target_dir, s.entries[s.cursor as int]);
        lemma_reverse_dry_run_prepares_at_once(reverse_with(s, op));
    }
}

/// A dry run towards the compact scheme has no effect outside: no step of
/// it asks for a check of a destination or for a rename.
pub proof fn lemma_reverse_dry_run_has_no_effect(s: ReverseState, event: RenameEvent)
    requires
        s.dry_run,
        s.phase != RenamePhase::Preparing,
        s.phase != RenamePhase::Executing,
    ensures
        reverse_step(s, event).0.dry_run,
        reverse_step(s, event).0.phase != RenamePhase::Preparing,
        reverse_step(s, event).0.phase != RenamePhase::Executing,
        asks_nothing(reverse_step(s, event).1),
{
    if s.phase == RenamePhase::Idle {
        lemma_reverse_dry_run_prepares_at_once(
            ReverseState { phase: RenamePhase::Preparing, ..s },
        );
    }
}

/// A phase in which the operations of a batch are still being prepared.
pub open spec fn before_prepared(phase: RenamePhase) -> bool {
    phase == RenamePhase::Idle || phase == RenamePhase::Preparing
}

/// A phase in which every operation of a batch is prepared.
pub open spec fn after_prepared(phase: RenamePhase) -> bool {
    phase == RenamePhase::Prepared || phase == RenamePhase::Executing || phase
        == RenamePhase::Committed
}

/// Preparing asks for no rename, and leaves the batch being prepared,
/// prepared or stopped.
proof fn lemma_advanced_asks_no_rename(s: RenameState, cache: CacheStore, now: Timestamp)
    requires
        s.phase == RenamePhase::Preparing,
    ensures
        !(advanced(s, cache, now).1 is Rename),
        advanced(s, cache, now).0.phase != RenamePhase::Executing,
        advanced(s, cache, now).0.phase != RenamePhase::Committed,
    decreases s.entries.len() - s.cursor,
{
    if s.cursor < s.entries.len() {
        let entry = s.entries[s.cursor as int];
        let info = match cache.lookup(entry.id, now) {
            Some(cached) => cached@.info,
            None => placeholder(entry.id),
        };
        let op = planned_operation(s.target_dir, entry, info, s.max_length);
        if s.dry_run {
            lemma_advanced_asks_no_rename(with_operation(s, op), cache, now);
        }
    }
}

/// Every check comes before every rename. A rename is asked for only once
/// every operation of the batch is prepared, and with it every destination
/// found free; from then on no destination is checked, and preparing does
/// not begin again. So a destination that is taken stops the batch while no
/// directory has been renamed.
pub proof fn lemma_checks_come_before_renames(
    s: RenameState,
    cache: CacheStore,
    event: RenameEvent,
    now: Timestamp,
)
    ensures
        rename_step(s, cache, event, now).1 is Rename ==> after_prepared(s.phase),
        rename_step(s, cache, event, now).1 is CheckDestination ==> before_prepared(s.phase),
        rename_step(s, cache, event, now).1 matches ActionData::Abort(
            FailureData::DestinationExists(_),
        ) ==> before_prepared(s.phase),
        after_prepared(s.phase) ==> !before_prepared(rename_step(s, cache, event, now).0.phase),
{
    match (s.phase, event) {
        (RenamePhase::Idle, RenameEvent::Start { client_error }) => {
            lemma_advanced_asks_no_rename(
                RenameState { phase: RenamePhase::Preparing, ..s },
                cache,
                now,
            );
        },
        (RenamePhase::Preparing, RenameEvent::DestinationChecked { exists }) => {
            if let Some(op) = s.pending {
                if !exists {
                    lemma_advanced_asks_no_rename(with_operation(s, op), cache, now);
                }
            }
        },
        _ => {},
    }
}

/// Preparing towards the compact scheme asks for no rename, and leaves the
/// batch being prepared or prepared.
proof fn lemma_reverse_advanced_asks_no_rename(s: ReverseState)
    requires
        s.phase == RenamePhase::Preparing,
    ensures
        !(reverse_advanced(s).1 is Rename),
        !(reverse_advanced(s).1 is Abort),
        reverse_advanced(s).0.phase == RenamePhase::Preparing || reverse_advanced(s).0.phase
            == RenamePhase::Prepared,
    decreases s.entries.len() - s.cursor,
{
    if s.cursor < s.entries.len() {
        let op = reverse_operation(s.target_dir, s.entries[s.cursor as int]);
        if s.dry_run {
            lemma_reverse_advanced_asks_no_rename(reverse_with(s, op));
        }
    }
}

/// Towards the compact scheme too, every check comes before every rename.
/// A rename is asked for only once every operation of the batch is
/// prepared, and with it every destination found free; from then on no
/// destination is checked. A destination that is taken stops the batch
/// while it is being prepared: no directory has been renamed by then.
pub proof fn lemma_reverse_checks_come_before_renames(s: ReverseState, event: RenameEvent)
    ensures
        reverse_step(s, event).1 is Rename ==> after_prepared(s.phase),
        reverse_step(s, event).1 is CheckDestination ==> before_prepared(s.phase),
        (event is DestinationChecked && reverse_step(s, event).1 is Abort) ==> before_prepared(
            s.phase,
        ),
        after_prepared(s.phase) ==> !before_prepared(reverse_step(s, event).0.phase),
{
    match (s.phase, event) {
        (RenamePhase::Idle, RenameEvent::Start { client_error }) => {
            lemma_reverse_advanced_asks_no_rename(
                ReverseState { phase: RenamePhase::Preparing, ..s },
            );
        },
        (RenamePhase::Preparing, RenameEvent::DestinationChecked { exists }) => {
            if let Some(op) = s.pending {
                if !exists {
                    lemma_reverse_advanced_asks_no_rename(reverse_with(s, op));
                }
            }
        },
        _ => {},
    }
}

/// A classified name is kept in what it was classified as.
proof fn lemma_classified_keeps_name(name: Seq<char>)
    requires
        classify(name) is Some,
    ensures
        classify(name)->0.name() == name,
{
}

/// The transaction of a validated batch begins orderly. With
/// [`lemma_step_keeps_orderly`] it stays so, and with
/// [`lemma_orderly_journal_is_apart`] its journal can be reverted.
pub proof fn lemma_validated_batch_begins_orderly(
    names: Seq<Seq<char>>,
    batch: Seq<ParsedName>,
    target_dir: Seq<char>,
    max_length: nat,
    dry_run: bool,
    api_configured: bool,
)
    requires
        batch.len() == names.len(),
        forall|i: int| 0 <= i < names.len() ==> classify(names[i]) == Some(#[trigger] batch[i]),
    ensures
        orderly(initial_state(target_dir, batch, max_length, dry_run, api_configured)),
{
    assert forall|i: int| 0 <= i < batch.len() implies classify((#[trigger] batch[i]).name())
        == Some(batch[i]) by {
        lemma_classified_keeps_name(names[i]);
    }
    lemma_classified_entries_end_with_digits(batch);
}

/// The transaction of a validated batch of readable names begins orderly.
/// With [`lemma_reverse_step_keeps_orderly`] it stays so, and with
/// [`lemma_orderly_back_journal_is_apart`] its journal can be reverted.
pub proof fn lemma_validated_batch_begins_orderly_back(
    names: Seq<Seq<char>>,
    batch: Seq<ParsedName>,
    target_dir: Seq<char>,
    dry_run: bool,
)
    requires
        batch.len() == names.len(),
        forall|i: int| 0 <= i < names.len() ==> classify(names[i]) == Some(#[trigger] batch[i]),
        forall|i: int| 0 <= i < batch.len() ==> (#[trigger] batch[i]) is HumanReadable,
    ensures
        orderly_back(reverse_initial_state(target_dir, batch, dry_run)),
{
    assert forall|i: int| 0 <= i < batch.len() implies ends_with_bracket(
        (#[trigger] batch[i]).name(),
    ) by {
        assert(classify(names[i]) == Some(batch[i]));
        lemma_classified_keeps_name(names[i]);
        lemma_readable_name_ends_with_bracket(names[i]);
    }
}

} // verus!
