//! `task`: delegation of a sub-task to a configured sub-agent.

use vstd::prelude::*;
use crate::config::{same_subagent, SubAgentConfig};
use crate::json::{field_str, get_str, Json};
use crate::text::{cat, cat3, owned, str_eq};
use crate::tools::ToolOutput;

verus! {

/// Accepts tasks for the configured sub-agents.
pub struct SubAgentTool {
    pub configs: Vec<SubAgentConfig>,
}

/// Some configured sub-agent has the name.
pub open spec fn has_subagent(configs: Seq<SubAgentConfig>, name: Seq<char>) -> bool {
    exists|i: int| 0 <= i < configs.len() && (#[trigger] configs[i]).name@ == name
}

impl SubAgentTool {
    /// Queues the task `description` for the sub-agent `subagent_type` (both
    /// default empty); an unknown sub-agent is refused.
    pub fn execute(&self, args: &Json) -> (r: ToolOutput)
        ensures
            ({
                let description = match field_str(args@, "description"@) {
                    Some(s) => s,
                    None => ""@,
                };
                let kind = match field_str(args@, "subagent_type"@) {
                    Some(s) => s,
                    None => ""@,
                };
                if has_subagent(self.configs@, kind) {
                    r.content@ == "Sub-agent task queued: type="@ + kind + ", description="@
                        + description && !r.is_error
                } else {
                    r.content@ == "Unknown sub-agent type: "@ + kind && r.is_error
                }
            }),
    {
        let description = match get_str(args, "description") {
            Some(s) => s,
            None => "",
        };
        let kind = match get_str(args, "subagent_type") {
            Some(s) => s,
            None => "",
        };
        let mut i: usize = 0;
        while i < self.configs.len()
            invariant
                i <= self.configs@.len(),
                kind@ == match field_str(args@, "subagent_type"@) {
                    Some(s) => s,
                    None => ""@,
                },
                description@ == match field_str(args@, "description"@) {
                    Some(s) => s,
                    None => ""@,
                },
                forall|k: int| 0 <= k < i ==> (#[trigger] self.configs@[k]).name@ != kind@,
            decreases self.configs@.len() - i,
        {
            if str_eq(self.configs[i].name.as_str(), kind) {
                assert(self.configs@[i as int].name@ == kind@);
                let mut text = cat3("Sub-agent task queued: type=", kind, ", description=");
                text.append(description);
                return ToolOutput { content: text, is_error: false };
            }
            i += 1;
        }
        ToolOutput { content: cat("Unknown sub-agent type: ", kind), is_error: true }
    }
}

/// The delegation tool for the sub-agents: none when there are none, else one
/// tool that knows all of them.
pub fn from_configs(configs: &Vec<SubAgentConfig>) -> (r: Vec<SubAgentTool>)
    ensures
        configs@.len() == 0 ==> r@.len() == 0,
        configs@.len() > 0 ==> r@.len() == 1 && r@[0].configs@.len() == configs@.len() && forall|
            i: int,
        |
            0 <= i < configs@.len() ==> same_subagent(#[trigger] r@[0].configs@[i], configs@[i]),
{
    let mut r: Vec<SubAgentTool> = Vec::new();
    if configs.len() == 0 {
        return r;
    }
    let mut copies: Vec<SubAgentConfig> = Vec::new();
    let mut i: usize = 0;
    while i < configs.len()
        invariant
            i <= configs@.len(),
            copies@.len() == i,
            forall|k: int| 0 <= k < i ==> same_subagent(#[trigger] copies@[k], configs@[k]),
        decreases configs@.len() - i,
    {
        copies.push(configs[i].copy());
        i += 1;
    }
    r.push(SubAgentTool { configs: copies });
    r
}

} // verus!
