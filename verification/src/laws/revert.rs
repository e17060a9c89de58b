//! Laws of reverting, over a directory that is a set of names: a revert
//! that is accepted gives back the directory as it was before the batch.

use super::names::{ends_with_bracket, ends_with_digit};
use crate::history::ChangeData;
use crate::revert::{
    probe_at, reverted_changes, reverts_data, reverts_of, violation, violations, PathProbe,
    RevertOperation,
};
use crate::text::is_digit;
use vstd::prelude::*;

verus! {

/// The names in a directory after the directory `from` is renamed to `to`,
/// or `None` where that cannot be done: `from` must be there and `to` must
/// be free.
pub open spec fn renamed(dir: Set<Seq<char>>, from: Seq<char>, to: Seq<char>) -> Option<
    Set<Seq<char>>,
> {
    if dir.contains(from) && !dir.contains(to) {
        Some(dir.remove(from).insert(to))
    } else {
        None
    }
}

/// The names in a directory after the given changes are applied in order,
/// each from its source to its destination, or `None` where one of them
/// cannot be done.
pub open spec fn applied(dir: Set<Seq<char>>, changes: Seq<ChangeData>) -> Option<Set<Seq<char>>>
    decreases changes.len(),
{
    if changes.len() == 0 {
        Some(dir)
    } else {
        match renamed(dir, changes[0].source, changes[0].destination) {
            Some(next) => applied(next, changes.drop_first()),
            None => None,
        }
    }
}

/// The inverse of the given changes, in the same order: each goes from the
/// destination back to the source.
pub open spec fn inverted(changes: Seq<ChangeData>) -> Seq<ChangeData> {
    Seq::new(
        changes.len(),
        |i: int|
            ChangeData {
                source: changes[i].destination,
                destination: changes[i].source,
                id: changes[i].id,
                truncated: false,
            },
    )
}

/// What a revert checks before it renames anything: every name that the
/// batch gave is there, and every name that it took is free.
pub open spec fn revertible(dir: Set<Seq<char>>, changes: Seq<ChangeData>) -> bool {
    forall|i: int|
        0 <= i < changes.len() ==> dir.contains((#[trigger] changes[i]).destination)
            && !dir.contains(changes[i].source)
}

/// A name that is not in the directory and that no change gives is the
/// source of no change, and is not in the directory afterwards.
proof fn lemma_absent_stays_absent(dir: Set<Seq<char>>, changes: Seq<ChangeData>, name: Seq<char>)
    requires
        applied(dir, changes) is Some,
        !dir.contains(name),
        forall|i: int| 0 <= i < changes.len() ==> (#[trigger] changes[i]).destination != name,
    ensures
        forall|i: int| 0 <= i < changes.len() ==> (#[trigger] changes[i]).source != name,
        !applied(dir, changes)->0.contains(name),
    decreases changes.len(),
{
    if changes.len() > 0 {
        let next = renamed(dir, changes[0].source, changes[0].destination)->0;
        let rest = changes.drop_first();
        assert(changes[0].destination != name);
        assert forall|i: int| 0 <= i < rest.len() implies (#[trigger] rest[i]).destination
            != name by {
            assert(rest[i] == changes[i + 1]);
        }
        lemma_absent_stays_absent(next, rest, name);
        assert forall|i: int| 0 <= i < changes.len() implies (#[trigger] changes[i]).source
            != name by {
            if i > 0 {
                assert(rest[i - 1] == changes[i]);
            }
        }
    }
}

/// A name that is in the directory and that no change takes is the
/// destination of no change, and is in the directory afterwards.
proof fn lemma_present_stays_present(
    dir: Set<Seq<char>>,
    changes: Seq<ChangeData>,
    name: Seq<char>,
)
    requires
        applied(dir, changes) is Some,
        dir.contains(name),
        forall|i: int| 0 <= i < changes.len() ==> (#[trigger] changes[i]).source != name,
    ensures
        forall|i: int| 0 <= i < changes.len() ==> (#[trigger] changes[i]).destination != name,
        applied(dir, changes)->0.contains(name),
    decreases changes.len(),
{
    if changes.len() > 0 {
        let next = renamed(dir, changes[0].source, changes[0].destination)->0;
        let rest = changes.drop_first();
        assert(changes[0].source != name);
        assert forall|i: int| 0 <= i < rest.len() implies (#[trigger] rest[i]).source != name by {
            assert(rest[i] == changes[i + 1]);
        }
        lemma_present_stays_present(next, rest, name);
        assert forall|i: int| 0 <= i < changes.len() implies (#[trigger] changes[i]).destination
            != name by {
            if i > 0 {
                assert(rest[i - 1] == changes[i]);
            }
        }
    }
}

/// Changes that touch neither `there` nor `free` can be applied as well
/// after `there` was renamed to `free`, and give the same directory but for
/// that renaming.
proof fn lemma_apply_commutes(
    dir: Set<Seq<char>>,
    changes: Seq<ChangeData>,
    there: Seq<char>,
    free: Seq<char>,
)
    requires
        applied(dir, changes) is Some,
        dir.contains(there),
        !dir.contains(free),
        forall|i: int|
            0 <= i < changes.len() ==> {
                &&& (#[trigger] changes[i]).source != there
                &&& changes[i].source != free
                &&& changes[i].destination != there
                &&& changes[i].destination != free
            },
    ensures
        applied(dir.remove(there).insert(free), changes) == Some(
            applied(dir, changes)->0.remove(there).insert(free),
        ),
    decreases changes.len(),
{
    if changes.len() > 0 {
        let first = changes[0];
        let next = renamed(dir, first.source, first.destination)->0;
        let rest = changes.drop_first();
        assert forall|i: int| 0 <= i < rest.len() implies {
            &&& (#[trigger] rest[i]).source != there
            &&& rest[i].source != free
            &&& rest[i].destination != there
            &&& rest[i].destination != free
        } by {
            assert(rest[i] == changes[i + 1]);
        }
        lemma_apply_commutes(next, rest, there, free);
        let moved = dir.remove(there).insert(free);
        assert(moved.remove(first.source).insert(first.destination) =~= next.remove(there).insert(
            free,
        ));
    }
}

/// The revert law: where a batch was applied to a directory and a revert of
/// its journal is accepted, running the reverts in the order of the journal
/// gives back the directory as it was before the batch, name for name.
pub proof fn lemma_revert_restores(dir: Set<Seq<char>>, changes: Seq<ChangeData>)
    requires
        applied(dir, changes) is Some,
        revertible(applied(dir, changes)->0, changes),
    ensures
        applied(applied(dir, changes)->0, inverted(changes)) == Some(dir),
    decreases changes.len(),
{
    let after = applied(dir, changes)->0;
    if changes.len() == 0 {
        assert(inverted(changes) =~= changes);
    } else {
        let first = changes[0];
        let next = renamed(dir, first.source, first.destination)->0;
        let rest = changes.drop_first();
        assert(applied(next, rest) == Some(after));
        assert forall|i: int| 0 <= i < rest.len() implies after.contains(
            (#[trigger] rest[i]).destination,
        ) && !after.contains(rest[i].source) by {
            assert(rest[i] == changes[i + 1]);
        }
        lemma_revert_restores(next, rest);
        // The names of the first change are touched by no later change.
        assert(after.contains(first.destination) && !after.contains(first.source));
        assert forall|i: int| 0 <= i < rest.len() implies (#[trigger] rest[i]).destination
            != first.source by {
            assert(rest[i] == changes[i + 1]);
        }
        assert forall|i: int| 0 <= i < rest.len() implies (#[trigger] rest[i]).source
            != first.destination by {
            assert(rest[i] == changes[i + 1]);
        }
        lemma_absent_stays_absent(next, rest, first.source);
        lemma_present_stays_present(next, rest, first.destination);
        let back = inverted(rest);
        assert(inverted(changes).drop_first() =~= back);
        assert forall|i: int| 0 <= i < back.len() implies {
            &&& (#[trigger] back[i]).source != first.destination
            &&& back[i].source != first.source
            &&& back[i].destination != first.destination
            &&& back[i].destination != first.source
        } by {
            assert(back[i].source == rest[i].destination);
            assert(back[i].destination == rest[i].source);
        }
        lemma_apply_commutes(after, back, first.destination, first.source);
        assert(next.remove(first.destination).insert(first.source) =~= dir);
        assert(inverted(changes)[0].source == first.destination);
        assert(inverted(changes)[0].destination == first.source);
    }
}

/// A revert can be reverted in turn: where the reverts of a journal were
/// run and a revert of their journal is accepted, running that gives back
/// the directory as the batch left it.
pub proof fn lemma_revert_is_revertible(dir: Set<Seq<char>>, changes: Seq<ChangeData>)
    requires
        applied(dir, inverted(changes)) is Some,
        revertible(applied(dir, inverted(changes))->0, inverted(changes)),
    ensures
        applied(applied(dir, inverted(changes))->0, inverted(inverted(changes))) == Some(dir),
{
    lemma_revert_restores(dir, inverted(changes));
}

/// The journal of a revert records the inverse of the journal that was
/// reverted.
pub proof fn lemma_revert_journal_is_inverse(
    changes: Seq<ChangeData>,
    target_dir: Seq<char>,
    operations: Seq<RevertOperation>,
)
    requires
        reverts_data(operations) == reverts_of(changes, target_dir),
    ensures
        reverted_changes(operations) == inverted(changes),
{
    assert(reverts_data(operations).len() == operations.len());
    assert(reverts_of(changes, target_dir).len() == changes.len());
    assert(reverted_changes(operations).len() == inverted(changes).len());
    assert forall|i: int| 0 <= i < changes.len() implies reverted_changes(operations)[i]
        == inverted(changes)[i] by {
        assert(reverts_data(operations)[i] == operations[i]@);
        assert(reverts_of(changes, target_dir)[i] == crate::revert::revert_of(
            changes[i],
            target_dir,
        ));
    }
    assert(reverted_changes(operations) =~= inverted(changes));
}

/// What was found for the entries of a journal is what a directory holds.
pub open spec fn probes_reflect(
    dir: Set<Seq<char>>,
    changes: Seq<ChangeData>,
    probes: Seq<PathProbe>,
) -> bool {
    &&& probes.len() == changes.len()
    &&& forall|i: int|
        0 <= i < changes.len() ==> (#[trigger] probes[i]).current_exists == dir.contains(
            changes[i].destination,
        ) && probes[i].original_exists == dir.contains(changes[i].source)
}

/// A revert that is accepted on what a directory holds can be run on that
/// directory: no violation means that every name that the batch gave is
/// there and every name that it took is free.
pub proof fn lemma_accepted_revert_is_revertible(
    dir: Set<Seq<char>>,
    changes: Seq<ChangeData>,
    probes: Seq<PathProbe>,
)
    requires
        probes_reflect(dir, changes, probes),
        violations(changes, probes, changes.len() as int).len() == 0,
    ensures
        revertible(dir, changes),
{
    assert forall|i: int| 0 <= i < changes.len() implies dir.contains(
        (#[trigger] changes[i]).destination,
    ) && !dir.contains(changes[i].source) by {
        lemma_no_violation_at(changes, probes, changes.len() as int, i);
        assert(probe_at(probes, i) == probes[i]);
    }
}

/// Where the first `count` entries have no violation, none of them has one.
proof fn lemma_no_violation_at(
    changes: Seq<ChangeData>,
    probes: Seq<PathProbe>,
    count: int,
    i: int,
)
    requires
        0 <= i < count,
        violations(changes, probes, count).len() == 0,
    ensures
        violation(changes[i], probe_at(probes, i)) is None,
    decreases count,
{
    if i < count - 1 {
        lemma_no_violation_at(changes, probes, count - 1, i);
    }
}

/// The changes lead from names that end with a digit to names that end with
/// `]`, as a batch towards the readable scheme does.
pub open spec fn towards_readable(changes: Seq<ChangeData>) -> bool {
    forall|i: int|
        0 <= i < changes.len() ==> ends_with_digit((#[trigger] changes[i]).source)
            && ends_with_bracket(changes[i].destination)
}

/// The changes lead from names that end with `]` to names that end with a
/// digit, as a batch towards the compact scheme does.
pub open spec fn towards_compact(changes: Seq<ChangeData>) -> bool {
    forall|i: int|
        0 <= i < changes.len() ==> ends_with_bracket((#[trigger] changes[i]).source)
            && ends_with_digit(changes[i].destination)
}

/// The changes of a batch: all lead from one scheme to the other.
pub open spec fn schemes_apart(changes: Seq<ChangeData>) -> bool {
    towards_readable(changes) || towards_compact(changes)
}

/// No source of a batch between the schemes is a destination of it.
proof fn lemma_no_source_is_destination(changes: Seq<ChangeData>)
    requires
        schemes_apart(changes),
    ensures
        forall|i: int, j: int|
            0 <= i < changes.len() && 0 <= j < changes.len() ==> (#[trigger] changes[i]).source
                != (#[trigger] changes[j]).destination,
{
    assert forall|i: int, j: int| 0 <= i < changes.len() && 0 <= j < changes.len() implies (
    #[trigger] changes[i]).source != (#[trigger] changes[j]).destination by {
        // A digit is no `]`.
        assert(!is_digit(']'));
    }
}

/// After a batch between the schemes was applied, a revert of it is
/// accepted: every name that the batch gave is there, and every name that
/// it took is free.
pub proof fn lemma_batch_is_revertible(dir: Set<Seq<char>>, changes: Seq<ChangeData>)
    requires
        applied(dir, changes) is Some,
        schemes_apart(changes),
    ensures
        revertible(applied(dir, changes)->0, changes),
    decreases changes.len(),
{
    if changes.len() > 0 {
        let first = changes[0];
        let next = renamed(dir, first.source, first.destination)->0;
        let rest = changes.drop_first();
        let after = applied(dir, changes)->0;
        lemma_no_source_is_destination(changes);
        assert forall|i: int| 0 <= i < rest.len() implies rest[i] == changes[i + 1] by {}
        assert(schemes_apart(rest));
        lemma_batch_is_revertible(next, rest);
        // What the first change gave stays, and what it took stays away.
        assert forall|i: int| 0 <= i < rest.len() implies (#[trigger] rest[i]).source
            != first.destination by {
            assert(rest[i] == changes[i + 1]);
        }
        assert forall|i: int| 0 <= i < rest.len() implies (#[trigger] rest[i]).destination
            != first.source by {
            assert(rest[i] == changes[i + 1]);
        }
        lemma_present_stays_present(next, rest, first.destination);
        lemma_absent_stays_absent(next, rest, first.source);
        assert forall|i: int| 0 <= i < changes.len() implies after.contains(
            (#[trigger] changes[i]).destination,
        ) && !after.contains(changes[i].source) by {
            if i > 0 {
                assert(changes[i] == rest[i - 1]);
            }
        }
    }
}

/// Renaming a batch between the schemes and reverting it gives back the
/// directory as it was, name for name: the reverts, run in the order of the
/// journal, undo what the batch did.
pub proof fn lemma_rename_then_revert_restores(dir: Set<Seq<char>>, changes: Seq<ChangeData>)
    requires
        applied(dir, changes) is Some,
        schemes_apart(changes),
    ensures
        revertible(applied(dir, changes)->0, changes),
        applied(applied(dir, changes)->0, inverted(changes)) == Some(dir),
{
    lemma_batch_is_revertible(dir, changes);
    lemma_revert_restores(dir, changes);
}

} // verus!
