//! `compact_conversation`: the model asks for the history to be summarized
//! before the next LLM call.

use vstd::prelude::*;
use crate::text::owned;
use crate::tools::ToolOutput;

verus! {

/// Remembers whether compaction was asked for.
pub struct CompactTool {
    pub triggered: bool,
}

impl CompactTool {
    /// A tool with no compaction pending.
    pub fn new() -> (r: Self)
        ensures
            !r.triggered,
    {
        CompactTool { triggered: false }
    }

    /// Records the request for compaction.
    pub fn execute(&mut self) -> (r: ToolOutput)
        ensures
            final(self).triggered,
            r.content@ == "Compaction triggered"@,
            !r.is_error,
    {
        self.triggered = true;
        ToolOutput { content: owned("Compaction triggered"), is_error: false }
    }

    /// Whether compaction is pending; the request is consumed.
    pub fn take_trigger(&mut self) -> (r: bool)
        ensures
            r == old(self).triggered,
            !final(self).triggered,
    {
        let t = self.triggered;
        self.triggered = false;
        t
    }
}

} // verus!
