//! Renaming a batch of directories from one naming scheme to the other:
//! the names, the operations, and the transactions that run them.

mod name_builder;
mod to_anidb;
mod to_readable;
mod types;

pub use name_builder::{
    anidb_name, build_anidb_name, build_human_readable_name, build_title_part, ellipsis,
    fixed_width, id_suffix, is_control, opt_str, opt_view, raw_name, readable_name, replacement,
    sanitize_filename, sanitized, sanitized_body, shortened_title, tag_prefix, title_part,
    truncate_name, truncated_name, year_shown, year_tail, NameBuildResult, NameBuilderConfig,
};
pub use to_anidb::{
    failed_operation, parsed_data, rename_to_anidb, reverse_advanced, reverse_initial_state,
    reverse_operation, reverse_runs, reverse_step, reverse_with, AniDbRenameTransaction,
    ReverseState,
};
pub use to_readable::{
    advanced, caches_metadata, compact_entries, entries_data, initial_state, placeholder,
    placeholder_info, planned_operation, rename_step, rename_to_readable, runs, with_operation,
    ActionData, FailureData, RenameAction, RenameError, RenameEvent, RenameOptions, RenamePhase,
    RenameState, RenameTransaction,
};
pub use types::{
    operation_for, operation_in, operations_data, truncated_among, OperationData, RenameDirection,
    RenameOperation, RenameResult,
};
