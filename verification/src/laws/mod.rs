//! What holds of the library as a whole: laws that relate several of its
//! functions, each proved from what the functions promise.

mod engine;
mod expiry;
mod names;
mod revert;

pub use engine::{
    after_prepared, asks_nothing, before_prepared, changes_of_operations, dry_and_quiet,
    leads_to_compact, leads_to_readable, lemma_checks_come_before_renames,
    lemma_classified_entries_end_with_digits, lemma_dry_run_has_no_effect,
    lemma_orderly_back_journal_is_apart, lemma_orderly_journal_is_apart,
    lemma_reverse_checks_come_before_renames, lemma_reverse_dry_run_has_no_effect,
    lemma_reverse_step_keeps_orderly, lemma_step_keeps_orderly,
    lemma_validated_batch_begins_orderly, lemma_validated_batch_begins_orderly_back, orderly,
    orderly_back,
};
pub use expiry::{lemma_expiry_boundary, lemma_expiry_is_by_whole_days, nanos_per_day};
pub use names::{
    ends_with_bracket, ends_with_digit, is_built_name, is_refused, is_safe,
    lemma_anidb_name_round_trip, lemma_build_is_deterministic,
    lemma_built_compact_name_ends_with_digit, lemma_built_readable_name_ends_with_bracket,
    lemma_classified_tag_is_valid, lemma_classify_then_rebuild, lemma_compact_name_ends_with_digit,
    lemma_full_name_is_safe, lemma_full_name_within_limit, lemma_name_within_limit,
    lemma_readable_name_ends_with_bracket, lemma_sanitized_is_safe, minimal_width, valid_tag,
};
pub use revert::{
    applied, inverted, lemma_accepted_revert_is_revertible, lemma_batch_is_revertible,
    lemma_rename_then_revert_restores, lemma_revert_is_revertible, lemma_revert_journal_is_inverse,
    lemma_revert_restores, probes_reflect, renamed, revertible, schemes_apart, towards_compact,
    towards_readable,
};
