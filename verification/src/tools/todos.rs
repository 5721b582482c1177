//! `write_todos`: the model's own todo list.

use vstd::prelude::*;
use crate::text::{cat, cat3, dec, fmt_u64};
use crate::tools::ToolOutput;

verus! {

/// One todo entry.
pub struct TodoItem {
    pub id: String,
    pub content: String,
    pub status: String,
    pub priority: String,
}

/// Holds the current todo list.
pub struct TodosTool {
    pub state: Vec<TodoItem>,
}

impl TodosTool {
    /// A tool with an empty list.
    pub fn new() -> (r: Self)
        ensures
            r.state@.len() == 0,
    {
        TodosTool { state: Vec::new() }
    }

    /// Replaces the list by the `todos` argument once it has been read as a
    /// list of items; an argument that could not be read (with the reader's
    /// message) leaves the list as it was.
    pub fn update(&mut self, todos: Result<Vec<TodoItem>, String>) -> (r: ToolOutput)
        ensures
            match todos {
                Ok(items) => {
                    &&& final(self).state == items
                    &&& r.content@ == "Updated "@ + dec(items@.len()) + " todos"@
                    &&& !r.is_error
                },
                Err(e) => {
                    &&& final(self).state == old(self).state
                    &&& r.content@ == "Invalid todos format: "@ + e@
                    &&& r.is_error
                },
            },
    {
        match todos {
            Ok(items) => {
                let count = items.len();
                self.state = items;
                ToolOutput {
                    content: cat3("Updated ", fmt_u64(count as u64).as_str(), " todos"),
                    is_error: false,
                }
            },
            Err(e) => ToolOutput { content: cat("Invalid todos format: ", e.as_str()), is_error: true },
        }
    }
}

} // verus!
