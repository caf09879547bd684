//! Repository handles, request routing and report building for a git
//! extension: the decisions and the text it produces, with the repository
//! reads left to the caller.
//!
//! - `store`: the table of open repositories under 32-bit handles.
//! - `request`: which operation a call asks for, read from its JSON input.
//! - `report`, `status`: the replies built from what the repository gives.
//! - `externs`: the stand-in entry point where git cannot run.
//! - `error`, `text`: the error texts and the numerals in them.
//! - `json`, `lossy`: the calls into serde_json and bstr.

mod error;
mod externs;
mod json;
mod lossy;
mod report;
mod request;
mod status;
mod store;
mod text;

pub use error::{error_message, field_name, law_error_texts, ErrorModel, Field, GixError};
pub use externs::{
    law_stub_slots_exact, raw_call_extern_name, register_externs, stub_raw_call, stub_slots,
    unavailable_message,
};
pub use json::{json_i64_field, json_parse_error, json_str_field, json_u64_field};
pub use lossy::lossy_text;
pub use report::{
    branches_out, commit_out, commit_report, law_at_most_one_head, law_commit_report_keeps_fields,
    law_head_branch_is_name_equality, current_branch_out, first_line, is_head_branch,
    law_first_line_cut, law_summary_is_first_line, lemma_line_break_index, line_break_index, log_args, log_limit,
    log_out,
    summary_line, workdir_out, BranchOut, BranchesOut, CommitModel, CommitOut, CommitRecord,
    CommitsOut, NameOut, OidOut, PathOut, WorkdirOut,
};
pub use request::{
    default_log_max, id_op, id_outcome, law_id_ops_read_the_handle, law_log_default_limit,
    law_id_op_names, law_log_keeps_requested_max, law_path_ops, law_unknown_op_refused, parse_id, parse_request, request_outcome, str_field_outcome, Request,
    RequestModel,
};
pub use status::{
    change_class, classify_worktree_change, item_report, law_reported_item_adds_line,
    law_status_item_flags, law_status_item_labels, law_untracked_file_is_new,
    law_stale_entry_left_out, law_status_lines, status_item, status_out, status_report,
    worktree_line, EntryState, StatusItemModel, StatusItemOut, StatusOut, WorktreeChange,
    WorktreeItem,
};
pub use store::{
    close_outcome, first_handle, handle_after, handle_after_from, handles_after_puts, held_below,
    law_close_agrees_with_lookup, law_close_keeps_other_handles, law_closed_handle_is_gone,
    law_closed_handle_stays_closed,
    law_handle_not_reissued, law_handles_count_up,
    law_lookup_after_put, law_put_keeps_other_handles, law_successive_handles_differ,
    law_wide_handle_refused, lookup, RepoStore,
};
pub use text::{
    decimal, digit_char, digits_value, law_decimal_denotes, push_decimal, push_signed_decimal,
    signed_decimal,
};
