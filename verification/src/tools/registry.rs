//! The set of tools offered in a run: the built-in tools, skill scripts,
//! sub-agents and MCP tools, found by name as the model calls them.

use vstd::prelude::*;
use crate::json::deep_copy;
use crate::provider::ToolDefinition;
use crate::text::{owned, str_eq, views};
use crate::tools::compact::CompactTool;
use crate::tools::done::TaskDoneTool;
use crate::tools::execute::ExecuteTool;
use crate::tools::filesystem::{
    EditFileTool, FilesystemTool, GlobTool, GrepTool, LsTool, ReadFileTool, WriteFileTool,
};
use crate::tools::skill_tool::SkillScriptTool;
use crate::tools::subagent::SubAgentTool;
use crate::tools::todos::TodosTool;

verus! {

/// Any tool that can be offered.
pub enum AnyTool {
    Filesystem(FilesystemTool),
    Execute(ExecuteTool),
    TaskDone(TaskDoneTool),
    Todos(TodosTool),
    Compact(CompactTool),
    Script(SkillScriptTool),
    SubAgent(SubAgentTool),
    /// A tool that an MCP server serves, as the server describes it.
    Mcp(ToolDefinition),
}

/// The name under which a file-system tool is offered.
pub open spec fn filesystem_name(t: FilesystemTool) -> Seq<char> {
    match t {
        FilesystemTool::Ls(_) => "ls"@,
        FilesystemTool::ReadFile(_) => "read_file"@,
        FilesystemTool::WriteFile(_) => "write_file"@,
        FilesystemTool::EditFile(_) => "edit_file"@,
        FilesystemTool::Glob(_) => "glob"@,
        FilesystemTool::Grep(_) => "grep"@,
    }
}

/// The name under which a tool is offered.
pub open spec fn tool_name(t: AnyTool) -> Seq<char> {
    match t {
        AnyTool::Filesystem(f) => filesystem_name(f),
        AnyTool::Execute(_) => "execute"@,
        AnyTool::TaskDone(_) => "task_done"@,
        AnyTool::Todos(_) => "write_todos"@,
        AnyTool::Compact(_) => "compact_conversation"@,
        AnyTool::Script(s) => s.tool_name@,
        AnyTool::SubAgent(_) => "task"@,
        AnyTool::Mcp(d) => d.name@,
    }
}

/// The names of the tools, in order.
pub open spec fn tool_names_of(tools: Seq<AnyTool>) -> Seq<Seq<char>> {
    Seq::new(tools.len(), |i: int| tool_name(tools[i]))
}

/// The names of the built-in tools, in the order they are offered: the
/// file-system tools, `execute` when shell execution is on, then
/// `task_done`, `write_todos` and `compact_conversation`.
pub open spec fn builtin_names(execute: bool) -> Seq<Seq<char>> {
    seq!["ls"@, "read_file"@, "write_file"@, "edit_file"@, "glob"@, "grep"@] + (if execute {
        seq!["execute"@]
    } else {
        Seq::empty()
    }) + seq!["task_done"@, "write_todos"@, "compact_conversation"@]
}

impl AnyTool {
    /// The name under which the tool is offered.
    pub fn name(&self) -> (r: &str)
        ensures
            r@ == tool_name(*self),
    {
        match self {
            AnyTool::Filesystem(t) => t.name(),
            AnyTool::Execute(t) => t.name(),
            AnyTool::TaskDone(t) => t.name(),
            AnyTool::Todos(t) => t.name(),
            AnyTool::Compact(t) => t.name(),
            AnyTool::Script(t) => t.name(),
            AnyTool::SubAgent(t) => t.name(),
            AnyTool::Mcp(d) => d.name.as_str(),
        }
    }

    /// The tool as it is offered to the model; an MCP tool is offered as
    /// its server describes it.
    pub fn definition(&self) -> (r: ToolDefinition)
        ensures
            r.name@ == tool_name(*self),
            (*self matches AnyTool::Mcp(d) ==> r.description@ == d.description@
                && r.parameters@ == d.parameters@),
    {
        match self {
            AnyTool::Filesystem(t) => t.definition(),
            AnyTool::Execute(t) => t.definition(),
            AnyTool::TaskDone(t) => t.definition(),
            AnyTool::Todos(t) => t.definition(),
            AnyTool::Compact(t) => t.definition(),
            AnyTool::Script(t) => t.definition(),
            AnyTool::SubAgent(t) => t.definition(),
            AnyTool::Mcp(d) => ToolDefinition {
                name: owned(d.name.as_str()),
                description: owned(d.description.as_str()),
                parameters: deep_copy(&d.parameters),
            },
        }
    }
}

/// Whether shell execution is on: the configuration enables it, or the run is
/// sandboxed.
pub open spec fn execute_on(config_enabled: bool, sandbox: bool) -> bool {
    config_enabled || sandbox
}

/// The built-in tools rooted at `working_dir`; `execute` is among them when
/// the configuration enables it or the run is sandboxed, with
/// `execute_timeout` seconds as its default time limit.
pub fn builtin_tools(working_dir: &str, execute_enabled: bool, sandbox: bool, execute_timeout: u64) -> (r:
    Vec<AnyTool>)
    ensures
        tool_names_of(r@) == builtin_names(execute_on(execute_enabled, sandbox)),
        forall|i: int|
            0 <= i < r@.len() ==> match #[trigger] r@[i] {
                AnyTool::Execute(t) => t.working_dir@ == working_dir@ && t.default_timeout
                    == execute_timeout,
                _ => true,
            },
{
    let mut r: Vec<AnyTool> = Vec::new();
    r.push(AnyTool::Filesystem(FilesystemTool::Ls(LsTool { working_dir: owned(working_dir) })));
    r.push(
        AnyTool::Filesystem(FilesystemTool::ReadFile(ReadFileTool { working_dir: owned(working_dir) })),
    );
    r.push(
        AnyTool::Filesystem(FilesystemTool::WriteFile(WriteFileTool { working_dir: owned(working_dir) })),
    );
    r.push(
        AnyTool::Filesystem(FilesystemTool::EditFile(EditFileTool { working_dir: owned(working_dir) })),
    );
    r.push(AnyTool::Filesystem(FilesystemTool::Glob(GlobTool { working_dir: owned(working_dir) })));
    r.push(AnyTool::Filesystem(FilesystemTool::Grep(GrepTool { working_dir: owned(working_dir) })));
    if execute_enabled || sandbox {
        r.push(AnyTool::Execute(ExecuteTool::new(owned(working_dir), execute_timeout)));
    }
    r.push(AnyTool::TaskDone(TaskDoneTool));
    r.push(AnyTool::Todos(TodosTool::new()));
    r.push(AnyTool::Compact(CompactTool::new()));
    proof {
        assert(tool_names_of(r@) =~= builtin_names(execute_on(execute_enabled, sandbox)));
    }
    r
}

/// The position of the first tool named `name`, if any.
pub fn find_tool(tools: &Vec<AnyTool>, name: &str) -> (r: Option<usize>)
    ensures
        match r {
            Some(k) => k < tools@.len() && tool_name(tools@[k as int]) == name@ && forall|j: int|
                0 <= j < k ==> tool_name(#[trigger] tools@[j]) != name@,
            None => forall|j: int| 0 <= j < tools@.len() ==> tool_name(#[trigger] tools@[j]) != name@,
        },
{
    let mut i: usize = 0;
    while i < tools.len()
        invariant
            i <= tools@.len(),
            forall|j: int| 0 <= j < i ==> tool_name(#[trigger] tools@[j]) != name@,
        decreases tools@.len() - i,
    {
        if str_eq(tools[i].name(), name) {
            return Some(i);
        }
        i += 1;
    }
    None
}

/// The definitions of the tools, in order.
pub fn tool_definitions(tools: &Vec<AnyTool>) -> (r: Vec<ToolDefinition>)
    ensures
        r@.len() == tools@.len(),
        forall|i: int| 0 <= i < r@.len() ==> (#[trigger] r@[i]).name@ == tool_name(tools@[i]),
{
    let mut r: Vec<ToolDefinition> = Vec::new();
    let mut i: usize = 0;
    while i < tools.len()
        invariant
            i <= tools@.len(),
            r@.len() == i,
            forall|k: int| 0 <= k < i ==> (#[trigger] r@[k]).name@ == tool_name(tools@[k]),
        decreases tools@.len() - i,
    {
        r.push(tools[i].definition());
        i += 1;
    }
    r
}

/// The names of the tools, in order.
pub fn tool_names(tools: &Vec<AnyTool>) -> (r: Vec<String>)
    ensures
        views(r@) == tool_names_of(tools@),
{
    let mut r: Vec<String> = Vec::new();
    let mut i: usize = 0;
    while i < tools.len()
        invariant
            i <= tools@.len(),
            views(r@) == tool_names_of(tools@).take(i as int),
        decreases tools@.len() - i,
    {
        let ghost before = r@;
        let n = owned(tools[i].name());
        r.push(n);
        proof {
            assert(r@ =~= before.push(n));
            assert(views(r@) =~= views(before).push(n@));
            assert(n@ == tool_name(tools@[i as int]));
            assert(views(r@) =~= tool_names_of(tools@).take(i + 1));
        }
        i += 1;
    }
    proof {
        assert(tool_names_of(tools@).take(tools@.len() as int) =~= tool_names_of(tools@));
    }
    r
}

} // verus!
