//! The tools offered to the model. Each tool here decides what it answers;
//! the file system, processes and clocks are driven by the caller.

use vstd::prelude::*;
use crate::text::cat;

pub mod compact;
pub mod definitions;
pub mod done;
pub mod edit;
pub mod execute;
pub mod filesystem;
pub mod registry;
pub mod schema;
pub mod skill_tool;
pub mod subagent;
pub mod todos;

verus! {

/// What a tool answers.
pub struct ToolOutput {
    pub content: String,
    pub is_error: bool,
}

/// The answer for a call of a tool that is not registered.
pub fn unknown_tool(name: &str) -> (r: ToolOutput)
    ensures
        r.content@ == "Unknown tool: "@ + name@,
        r.is_error,
{
    ToolOutput { content: cat("Unknown tool: ", name), is_error: true }
}

} // verus!
