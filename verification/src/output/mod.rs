//! The plain-text reports of a batch: what a dry run would do, and what a
//! run did.

use crate::rename::{truncated_among, RenameDirection, RenameOperation, RenameResult};
use crate::revert::{RevertOperation, RevertResult};
use crate::styled::{plain, SpanData, Style};
use crate::text::{decimal_digits, extend_chars, extend_str, format_u32, format_usize, string_of};
use crate::ui::{boxed_lines, done_line, item_line, kv_line, marked_line, toned_line, Ui};
use vstd::prelude::*;

verus! {

/// The direction of a batch in plain letters.
pub open spec fn direction_text(direction: RenameDirection) -> Seq<char> {
    match direction {
        RenameDirection::AniDbToReadable => "AniDB -> Human-readable"@,
        RenameDirection::ReadableToAniDb => "Human-readable -> AniDB"@,
    }
}

/// The entry of operation `number` in the report of a dry run.
pub open spec fn planned_entry(number: nat, op: RenameOperation) -> Seq<char> {
    "  "@ + decimal_digits(number) + ". [catalog-"@ + decimal_digits(op.anidb_id as nat) + "]\n"@
        + "     From: "@ + op.source_name@ + "\n"@ + "     To:   "@ + op.destination_name@ + "\n"@
        + (if op.truncated {
        "     [!] Name truncated to fit filesystem limits\n"@
    } else {
        Seq::empty()
    }) + "\n"@
}

/// The entries of the given operations, numbered from one.
pub open spec fn planned_entries(ops: Seq<RenameOperation>) -> Seq<char>
    decreases ops.len(),
{
    if ops.len() == 0 {
        Seq::empty()
    } else {
        planned_entries(ops.drop_last()) + planned_entry(ops.len(), ops.last())
    }
}

/// The head of the report of a dry run: a heading, the direction and the
/// number of operations.
pub open spec fn dry_run_head(result: RenameResult) -> Seq<char> {
    "\n"@ + "========================================\n"@ + "              DRY RUN\n"@
        + "========================================\n"@ + "\n"@ + "Direction:  "@ + direction_text(
        result.direction,
    ) + "\n"@ + "Operations: "@ + decimal_digits(result.operations@.len()) + "\n"@ + "\n"@
}

/// The summary of the report of a dry run: how many directories would be
/// renamed, and how many names would be shortened where any would.
pub open spec fn dry_run_summary(result: RenameResult) -> Seq<char> {
    let truncated = truncated_among(result.operations@);
    "----------------------------------------\n"@ + "Summary:\n"@ + "  "@ + decimal_digits(
        result.operations@.len(),
    ) + " directories would be renamed\n"@ + (if truncated > 0 {
        "  "@ + decimal_digits(truncated) + " names would be truncated\n"@
    } else {
        Seq::empty()
    }) + "\n"@ + "Run without --dry to apply these changes.\n"@
}

/// The report of a dry run: the head, then every operation with its old and
/// its new name, then the summary. A batch without operations has one line
/// in place of both.
pub open spec fn dry_run_report(result: RenameResult) -> Seq<char> {
    dry_run_head(result) + (if result.operations@.len() == 0 {
        "No directories to rename.\n"@
    } else {
        "Planned changes:\n"@ + "\n"@ + planned_entries(result.operations@) + dry_run_summary(
            result,
        )
    })
}

/// One line `id<TAB>old name<TAB>new name` for each operation.
pub open spec fn simple_report(ops: Seq<RenameOperation>) -> Seq<char>
    decreases ops.len(),
{
    if ops.len() == 0 {
        Seq::empty()
    } else {
        simple_report(ops.drop_last()) + decimal_digits(ops.last().anidb_id as nat) + "\t"@
            + ops.last().source_name@ + "\t"@ + ops.last().destination_name@ + "\n"@
    }
}

/// The report of a run: how many directories were renamed, and how many
/// names were shortened where any was.
pub open spec fn execution_report(result: RenameResult) -> Seq<char> {
    let truncated = truncated_among(result.operations@);
    "\n"@ + "Successfully renamed "@ + decimal_digits(result.operations@.len())
        + " directories.\n"@ + (if truncated > 0 {
        "  "@ + decimal_digits(truncated) + " names were truncated.\n"@
    } else {
        Seq::empty()
    })
}

/// Appends the head of the report of a dry run.
fn push_dry_run_head(buf: &mut Vec<char>, result: &RenameResult)
    ensures
        final(buf)@ == old(buf)@ + dry_run_head(*result),
{
    let mut head: Vec<char> = Vec::new();
    extend_str(&mut head, "\n");
    extend_str(&mut head, "========================================\n");
    extend_str(&mut head, "              DRY RUN\n");
    extend_str(&mut head, "========================================\n");
    extend_str(&mut head, "\n");
    extend_str(&mut head, "Direction:  ");
    match result.direction {
        RenameDirection::AniDbToReadable => extend_str(&mut head, "AniDB -> Human-readable"),
        RenameDirection::ReadableToAniDb => extend_str(&mut head, "Human-readable -> AniDB"),
    }
    extend_str(&mut head, "\n");
    extend_str(&mut head, "Operations: ");
    extend_chars(&mut head, &format_usize(result.operations.len()));
    extend_str(&mut head, "\n");
    extend_str(&mut head, "\n");
    extend_chars(buf, &head);
}

/// Appends the entry of an operation.
fn push_planned_entry(buf: &mut Vec<char>, number: usize, op: &RenameOperation)
    ensures
        final(buf)@ == old(buf)@ + planned_entry(number as nat, *op),
{
    let mut entry: Vec<char> = Vec::new();
    extend_str(&mut entry, "  ");
    extend_chars(&mut entry, &format_usize(number));
    extend_str(&mut entry, ". [catalog-");
    extend_chars(&mut entry, &format_u32(op.anidb_id));
    extend_str(&mut entry, "]\n");
    extend_str(&mut entry, "     From: ");
    extend_str(&mut entry, op.source_name.as_str());
    extend_str(&mut entry, "\n");
    extend_str(&mut entry, "     To:   ");
    extend_str(&mut entry, op.destination_name.as_str());
    extend_str(&mut entry, "\n");
    if op.truncated {
        extend_str(&mut entry, "     [!] Name truncated to fit filesystem limits\n");
    }
    extend_str(&mut entry, "\n");
    extend_chars(buf, &entry);
}

/// Appends the summary of the report of a dry run.
fn push_dry_run_summary(buf: &mut Vec<char>, result: &RenameResult)
    ensures
        final(buf)@ == old(buf)@ + dry_run_summary(*result),
{
    let mut summary: Vec<char> = Vec::new();
    extend_str(&mut summary, "----------------------------------------\n");
    extend_str(&mut summary, "Summary:\n");
    extend_str(&mut summary, "  ");
    extend_chars(&mut summary, &format_usize(result.operations.len()));
    extend_str(&mut summary, " directories would be renamed\n");
    let truncated_count = result.truncated_count();
    if truncated_count > 0 {
        extend_str(&mut summary, "  ");
        extend_chars(&mut summary, &format_usize(truncated_count));
        extend_str(&mut summary, " names would be truncated\n");
    }
    extend_str(&mut summary, "\n");
    extend_str(&mut summary, "Run without --dry to apply these changes.\n");
    extend_chars(buf, &summary);
}

/// The report of a dry run.
pub fn display_dry_run(result: &RenameResult) -> (out: String)
    ensures
        out@ == dry_run_report(*result),
{
    let count = result.operations.len();
    let mut buf: Vec<char> = Vec::new();
    push_dry_run_head(&mut buf, result);
    if count == 0 {
        extend_str(&mut buf, "No directories to rename.\n");
        return string_of(&buf);
    }
    extend_str(&mut buf, "Planned changes:\n");
    extend_str(&mut buf, "\n");
    let ghost listing = buf@;
    let mut i: usize = 0;
    while i < count
        invariant
            i <= count,
            count == result.operations@.len(),
            buf@ == listing + planned_entries(result.operations@.take(i as int)),
        decreases count - i,
    {
        proof {
            let t = result.operations@.take(i + 1);
            assert(t.drop_last() =~= result.operations@.take(i as int));
        }
        push_planned_entry(&mut buf, i + 1, &result.operations[i]);
        i += 1;
    }
    assert(result.operations@.take(count as int) =~= result.operations@);
    push_dry_run_summary(&mut buf, result);
    string_of(&buf)
}

/// The report of a dry run for scripts: one line with tabs for each
/// operation.
pub fn display_dry_run_simple(result: &RenameResult) -> (out: String)
    ensures
        out@ == simple_report(result.operations@),
{
    let mut buf: Vec<char> = Vec::new();
    let mut i: usize = 0;
    while i < result.operations.len()
        invariant
            i <= result.operations.len(),
            buf@ == simple_report(result.operations@.take(i as int)),
        decreases result.operations.len() - i,
    {
        let op = &result.operations[i];
        proof {
            let t = result.operations@.take(i + 1);
            assert(t.drop_last() =~= result.operations@.take(i as int));
        }
        extend_chars(&mut buf, &format_u32(op.anidb_id));
        extend_str(&mut buf, "\t");
        extend_str(&mut buf, op.source_name.as_str());
        extend_str(&mut buf, "\t");
        extend_str(&mut buf, op.destination_name.as_str());
        extend_str(&mut buf, "\n");
        i += 1;
    }
    assert(result.operations@.take(result.operations.len() as int) =~= result.operations@);
    string_of(&buf)
}

/// The report of a run.
pub fn display_execution_result(result: &RenameResult) -> (out: String)
    ensures
        out@ == execution_report(*result),
{
    let mut buf: Vec<char> = Vec::new();
    extend_str(&mut buf, "\n");
    extend_str(&mut buf, "Successfully renamed ");
    extend_chars(&mut buf, &format_usize(result.operations.len()));
    extend_str(&mut buf, " directories.\n");
    let truncated_count = result.truncated_count();
    if truncated_count > 0 {
        extend_str(&mut buf, "  ");
        extend_chars(&mut buf, &format_usize(truncated_count));
        extend_str(&mut buf, " names were truncated.\n");
    }
    string_of(&buf)
}

/// One line for each of the given reverts: `from -> to`, with a mark where
/// the reverts are done.
pub open spec fn revert_lines(colors: bool, ops: Seq<RevertOperation>, done: bool) -> Seq<SpanData>
    decreases ops.len(),
{
    if ops.len() == 0 {
        Seq::empty()
    } else {
        revert_lines(colors, ops.drop_last(), done) + if done {
            done_line(colors, ops.last().current_name@, ops.last().revert_name@)
        } else {
            item_line(colors, ops.last().current_name@, ops.last().revert_name@)
        }
    }
}

/// The body of the report of a dry run of a revert: the title, the
/// journal, every revert that would be run, and how to run them.
pub open spec fn planned_revert_report(colors: bool, result: RevertResult) -> Seq<SpanData> {
    let blank = seq![plain("\n"@)];
    boxed_lines(colors, "REVERT DRY RUN"@) + blank + kv_line(
        colors,
        "History file"@,
        result.original_history@,
    ) + blank + toned_line(
        colors,
        Style::Cyan,
        "Would revert "@ + decimal_digits(result.operations@.len()) + " directories:"@,
    ) + blank + revert_lines(colors, result.operations@, false) + blank + toned_line(
        colors,
        Style::Dimmed,
        "Run without --dry to apply these reverts."@,
    )
}

/// The body of the report of a revert that was run: the title, the number
/// of directories, every revert, and the journal of the revert where one
/// was written.
pub open spec fn completed_revert_report(colors: bool, result: RevertResult) -> Seq<SpanData> {
    let blank = seq![plain("\n"@)];
    boxed_lines(colors, "REVERT COMPLETE"@) + blank + marked_line(
        colors,
        "✓"@,
        Style::GreenBold,
        Style::Green,
        "* "@,
        decimal_digits(result.operations@.len()) + " directories restored"@,
    ) + blank + revert_lines(colors, result.operations@, true) + (match result.revert_history_path {
        Some(path) => blank + toned_line(colors, Style::Dimmed, "Revert history: "@ + path@),
        None => Seq::empty(),
    })
}

/// The report of a revert: an empty line, the body for a dry run or for a
/// run, and an empty line.
pub open spec fn revert_report(colors: bool, result: RevertResult) -> Seq<SpanData> {
    seq![plain("\n"@)] + (if result.dry_run {
        planned_revert_report(colors, result)
    } else {
        completed_revert_report(colors, result)
    }) + seq![plain("\n"@)]
}

/// Writes one line for each revert.
fn list_reverts(ui: &mut Ui, ops: &Vec<RevertOperation>, done: bool)
    requires
        !old(ui).verbose(),
    ensures
        final(ui).output() == old(ui).output() + revert_lines(old(ui).colors(), ops@, done),
        final(ui).colors() == old(ui).colors(),
        final(ui).verbose() == old(ui).verbose(),
{
    let mut i: usize = 0;
    while i < ops.len()
        invariant
            i <= ops.len(),
            !ui.verbose(),
            ui.colors() == old(ui).colors(),
            ui.verbose() == old(ui).verbose(),
            ui.output() == old(ui).output() + revert_lines(ui.colors(), ops@.take(i as int), done),
        decreases ops.len() - i,
    {
        let op = &ops[i];
        proof {
            let t = ops@.take(i + 1);
            assert(t.drop_last() =~= ops@.take(i as int));
        }
        if done {
            ui.list_done(op.current_name.as_str(), op.revert_name.as_str());
        } else {
            ui.list_item(op.current_name.as_str(), op.revert_name.as_str());
        }
        i += 1;
    }
    assert(ops@.take(ops.len() as int) =~= ops@);
}

/// Writes the body of the report of a dry run.
fn display_planned_revert(ui: &mut Ui, result: &RevertResult)
    requires
        !old(ui).verbose(),
    ensures
        final(ui).output() == old(ui).output() + planned_revert_report(old(ui).colors(), *result),
        final(ui).colors() == old(ui).colors(),
        final(ui).verbose() == old(ui).verbose(),
{
    let count = string_of(&format_usize(result.operations.len()));
    ui.boxed_title("REVERT DRY RUN");
    ui.blank();
    ui.kv("History file", result.original_history.as_str());
    ui.blank();
    ui.info(crate::styled::concat3("Would revert ", count.as_str(), " directories:").as_str());
    ui.blank();
    list_reverts(ui, &result.operations, false);
    ui.blank();
    ui.dim("Run without --dry to apply these reverts.");
}

/// Writes the body of the report of a revert that was run.
fn display_completed_revert(ui: &mut Ui, result: &RevertResult)
    requires
        !old(ui).verbose(),
    ensures
        final(ui).output() == old(ui).output() + completed_revert_report(
            old(ui).colors(),
            *result,
        ),
        final(ui).colors() == old(ui).colors(),
        final(ui).verbose() == old(ui).verbose(),
{
    let count = string_of(&format_usize(result.operations.len()));
    ui.boxed_title("REVERT COMPLETE");
    ui.blank();
    ui.success(crate::styled::concat2(count.as_str(), " directories restored").as_str());
    ui.blank();
    list_reverts(ui, &result.operations, true);
    match &result.revert_history_path {
        Some(path) => {
            ui.blank();
            ui.dim(crate::styled::concat2("Revert history: ", path.as_str()).as_str());
        },
        None => {},
    }
}

/// Writes the report of a revert: see [`revert_report`]. In verbose mode
/// nothing is written.
pub fn display_revert_result(ui: &mut Ui, result: &RevertResult)
    ensures
        final(ui).output() == old(ui).output() + old(ui).shown(
            revert_report(old(ui).colors(), *result),
        ),
        final(ui).colors() == old(ui).colors(),
        final(ui).verbose() == old(ui).verbose(),
{
    if ui.is_verbose() {
        return;
    }
    ui.blank();
    if result.dry_run {
        display_planned_revert(ui, result);
    } else {
        display_completed_revert(ui, result);
    }
    ui.blank();
}

} // verus!
