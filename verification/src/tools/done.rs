//! `task_done`: the model declares the task finished.

use vstd::prelude::*;
use crate::json::{field_bool, field_str, get_bool, get_str, Json};
use crate::text::{cat, owned};
use crate::tools::ToolOutput;

verus! {

/// Signals completion.
pub struct TaskDoneTool;

/// The text of a boolean, as `format!` writes it.
pub open spec fn bool_text(b: bool) -> Seq<char> {
    if b { "true"@ } else { "false"@ }
}

impl TaskDoneTool {
    /// The acknowledgement of the `summary` (default empty) and `success`
    /// (default no) arguments.
    pub fn execute(args: &Json) -> (r: ToolOutput)
        ensures
            r.content@ == "Task completed. Success: "@ + bool_text(
                match field_bool(args@, "success"@) {
                    Some(b) => b,
                    None => false,
                },
            ) + ". Summary: "@ + match field_str(args@, "summary"@) {
                Some(s) => s,
                None => ""@,
            },
            !r.is_error,
    {
        let summary = match get_str(args, "summary") {
            Some(s) => s,
            None => "",
        };
        let success = match get_bool(args, "success") {
            Some(b) => b,
            None => false,
        };
        let mut text = cat("Task completed. Success: ", if success { "true" } else { "false" });
        text.append(". Summary: ");
        text.append(summary);
        ToolOutput { content: text, is_error: false }
    }
}

} // verus!
