//! The names and parameter schemas under which the tools are offered.

use vstd::prelude::*;
use crate::json::{entries_view, entry, values_view, Json, JsonView};
use crate::provider::ToolDefinition;
use crate::tools::filesystem::FilesystemTool;
use crate::text::{owned, views};
use crate::tools::schema::{
    name_list, names_json, object_schema, open_object, open_schema, prop, prop_default, property,
    property_with_default, schema,
};

verus! {

/// The parameters of `ls`.
pub open spec fn ls_parameters() -> JsonView {
    object_schema(
        seq![
            ("path"@, prop("string"@, "Directory path to list"@)),
        ],
        seq!["path"@],
    )
}

impl crate::tools::filesystem::LsTool {
    /// The tool's name.
    pub fn name(&self) -> (r: &'static str)
        ensures
            r@ == "ls"@,
    {
        "ls"
    }

    /// The tool as it is offered to the model.
    pub fn definition(&self) -> (r: ToolDefinition)
        ensures
            r.name@ == "ls"@,
            r.description@ == "List directory entries, one per line."@,
            r.parameters@ == ls_parameters(),
    {
        let mut props: Vec<(String, Json)> = Vec::new();
        props.push(entry("path", property("string", "Directory path to list")));
        let mut required: Vec<String> = Vec::new();
        required.push(owned("path"));
        proof {
            assert(entries_view(props@) =~= seq![
            ("path"@, prop("string"@, "Directory path to list"@)),
        ]);
            assert(views(required@) =~= seq!["path"@]);
        }
        ToolDefinition {
            name: owned("ls"),
            description: owned("List directory entries, one per line."),
            parameters: schema(props, &required),
        }
    }
}

/// The parameters of `read_file`.
pub open spec fn read_file_parameters() -> JsonView {
    object_schema(
        seq![
            ("file_path"@, prop("string"@, "Path to the file"@)),
            ("offset"@, prop_default("integer"@, "Starting line number (0-based)"@, JsonView::Number("0"@))),
            ("limit"@, prop_default("integer"@, "Maximum number of lines to read"@, JsonView::Number("100"@))),
        ],
        seq!["file_path"@],
    )
}

impl crate::tools::filesystem::ReadFileTool {
    /// The tool's name.
    pub fn name(&self) -> (r: &'static str)
        ensures
            r@ == "read_file"@,
    {
        "read_file"
    }

    /// The tool as it is offered to the model.
    pub fn definition(&self) -> (r: ToolDefinition)
        ensures
            r.name@ == "read_file"@,
            r.description@ == "Read file contents with line-based pagination."@,
            r.parameters@ == read_file_parameters(),
    {
        let mut props: Vec<(String, Json)> = Vec::new();
        props.push(entry("file_path", property("string", "Path to the file")));
        props.push(entry("offset", property_with_default("integer", "Starting line number (0-based)", Json::Number(owned("0")))));
        props.push(entry("limit", property_with_default("integer", "Maximum number of lines to read", Json::Number(owned("100")))));
        let mut required: Vec<String> = Vec::new();
        required.push(owned("file_path"));
        proof {
            assert(entries_view(props@) =~= seq![
            ("file_path"@, prop("string"@, "Path to the file"@)),
            ("offset"@, prop_default("integer"@, "Starting line number (0-based)"@, JsonView::Number("0"@))),
            ("limit"@, prop_default("integer"@, "Maximum number of lines to read"@, JsonView::Number("100"@))),
        ]);
            assert(views(required@) =~= seq!["file_path"@]);
        }
        ToolDefinition {
            name: owned("read_file"),
            description: owned("Read file contents with line-based pagination."),
            parameters: schema(props, &required),
        }
    }
}

/// The parameters of `write_file`.
pub open spec fn write_file_parameters() -> JsonView {
    object_schema(
        seq![
            ("file_path"@, prop("string"@, "Path to the file"@)),
            ("content"@, prop("string"@, "Content to write"@)),
        ],
        seq!["file_path"@, "content"@],
    )
}

impl crate::tools::filesystem::WriteFileTool {
    /// The tool's name.
    pub fn name(&self) -> (r: &'static str)
        ensures
            r@ == "write_file"@,
    {
        "write_file"
    }

    /// The tool as it is offered to the model.
    pub fn definition(&self) -> (r: ToolDefinition)
        ensures
            r.name@ == "write_file"@,
            r.description@ == "Write content to a file, creating parent directories if needed."@,
            r.parameters@ == write_file_parameters(),
    {
        let mut props: Vec<(String, Json)> = Vec::new();
        props.push(entry("file_path", property("string", "Path to the file")));
        props.push(entry("content", property("string", "Content to write")));
        let mut required: Vec<String> = Vec::new();
        required.push(owned("file_path"));
        required.push(owned("content"));
        proof {
            assert(entries_view(props@) =~= seq![
            ("file_path"@, prop("string"@, "Path to the file"@)),
            ("content"@, prop("string"@, "Content to write"@)),
        ]);
            assert(views(required@) =~= seq!["file_path"@, "content"@]);
        }
        ToolDefinition {
            name: owned("write_file"),
            description: owned("Write content to a file, creating parent directories if needed."),
            parameters: schema(props, &required),
        }
    }
}

/// The parameters of `edit_file`.
pub open spec fn edit_file_parameters() -> JsonView {
    object_schema(
        seq![
            ("file_path"@, prop("string"@, "Path to the file"@)),
            ("old_string"@, prop("string"@, "String to find"@)),
            ("new_string"@, prop("string"@, "Replacement string"@)),
            ("replace_all"@, prop_default("boolean"@, "Replace all occurrences"@, JsonView::Bool(false))),
        ],
        seq!["file_path"@, "old_string"@, "new_string"@],
    )
}

impl crate::tools::filesystem::EditFileTool {
    /// The tool's name.
    pub fn name(&self) -> (r: &'static str)
        ensures
            r@ == "edit_file"@,
    {
        "edit_file"
    }

    /// The tool as it is offered to the model.
    pub fn definition(&self) -> (r: ToolDefinition)
        ensures
            r.name@ == "edit_file"@,
            r.description@ == "Replace strings in a file. Reports occurrence count."@,
            r.parameters@ == edit_file_parameters(),
    {
        let mut props: Vec<(String, Json)> = Vec::new();
        props.push(entry("file_path", property("string", "Path to the file")));
        props.push(entry("old_string", property("string", "String to find")));
        props.push(entry("new_string", property("string", "Replacement string")));
        props.push(entry("replace_all", property_with_default("boolean", "Replace all occurrences", Json::Bool(false))));
        let mut required: Vec<String> = Vec::new();
        required.push(owned("file_path"));
        required.push(owned("old_string"));
        required.push(owned("new_string"));
        proof {
            assert(entries_view(props@) =~= seq![
            ("file_path"@, prop("string"@, "Path to the file"@)),
            ("old_string"@, prop("string"@, "String to find"@)),
            ("new_string"@, prop("string"@, "Replacement string"@)),
            ("replace_all"@, prop_default("boolean"@, "Replace all occurrences"@, JsonView::Bool(false))),
        ]);
            assert(views(required@) =~= seq!["file_path"@, "old_string"@, "new_string"@]);
        }
        ToolDefinition {
            name: owned("edit_file"),
            description: owned("Replace strings in a file. Reports occurrence count."),
            parameters: schema(props, &required),
        }
    }
}

/// The parameters of `glob`.
pub open spec fn glob_parameters() -> JsonView {
    object_schema(
        seq![
            ("pattern"@, prop("string"@, "Glob pattern to match"@)),
            ("path"@, prop_default("string"@, "Base directory to search in"@, JsonView::Str("/"@))),
        ],
        seq!["pattern"@],
    )
}

impl crate::tools::filesystem::GlobTool {
    /// The tool's name.
    pub fn name(&self) -> (r: &'static str)
        ensures
            r@ == "glob"@,
    {
        "glob"
    }

    /// The tool as it is offered to the model.
    pub fn definition(&self) -> (r: ToolDefinition)
        ensures
            r.name@ == "glob"@,
            r.description@ == "Find files matching a glob pattern."@,
            r.parameters@ == glob_parameters(),
    {
        let mut props: Vec<(String, Json)> = Vec::new();
        props.push(entry("pattern", property("string", "Glob pattern to match")));
        props.push(entry("path", property_with_default("string", "Base directory to search in", Json::string("/"))));
        let mut required: Vec<String> = Vec::new();
        required.push(owned("pattern"));
        proof {
            assert(entries_view(props@) =~= seq![
            ("pattern"@, prop("string"@, "Glob pattern to match"@)),
            ("path"@, prop_default("string"@, "Base directory to search in"@, JsonView::Str("/"@))),
        ]);
            assert(views(required@) =~= seq!["pattern"@]);
        }
        ToolDefinition {
            name: owned("glob"),
            description: owned("Find files matching a glob pattern."),
            parameters: schema(props, &required),
        }
    }
}

/// The parameters of `grep`.
pub open spec fn grep_parameters() -> JsonView {
    object_schema(
        seq![
            ("pattern"@, prop("string"@, "Regex pattern to search for"@)),
            ("path"@, prop("string"@, "Directory or file to search in"@)),
            ("glob"@, prop("string"@, "File glob pattern to filter files"@)),
        ],
        seq!["pattern"@],
    )
}

impl crate::tools::filesystem::GrepTool {
    /// The tool's name.
    pub fn name(&self) -> (r: &'static str)
        ensures
            r@ == "grep"@,
    {
        "grep"
    }

    /// The tool as it is offered to the model.
    pub fn definition(&self) -> (r: ToolDefinition)
        ensures
            r.name@ == "grep"@,
            r.description@ == "Search file contents using a regex pattern."@,
            r.parameters@ == grep_parameters(),
    {
        let mut props: Vec<(String, Json)> = Vec::new();
        props.push(entry("pattern", property("string", "Regex pattern to search for")));
        props.push(entry("path", property("string", "Directory or file to search in")));
        props.push(entry("glob", property("string", "File glob pattern to filter files")));
        let mut required: Vec<String> = Vec::new();
        required.push(owned("pattern"));
        proof {
            assert(entries_view(props@) =~= seq![
            ("pattern"@, prop("string"@, "Regex pattern to search for"@)),
            ("path"@, prop("string"@, "Directory or file to search in"@)),
            ("glob"@, prop("string"@, "File glob pattern to filter files"@)),
        ]);
            assert(views(required@) =~= seq!["pattern"@]);
        }
        ToolDefinition {
            name: owned("grep"),
            description: owned("Search file contents using a regex pattern."),
            parameters: schema(props, &required),
        }
    }
}

/// The parameters of `execute`.
pub open spec fn execute_parameters() -> JsonView {
    object_schema(
        seq![
            ("command"@, prop("string"@, "Shell command to execute"@)),
            ("timeout"@, prop("integer"@, "Timeout in seconds (optional)"@)),
        ],
        seq!["command"@],
    )
}

impl crate::tools::execute::ExecuteTool {
    /// The tool's name.
    pub fn name(&self) -> (r: &'static str)
        ensures
            r@ == "execute"@,
    {
        "execute"
    }

    /// The tool as it is offered to the model.
    pub fn definition(&self) -> (r: ToolDefinition)
        ensures
            r.name@ == "execute"@,
            r.description@ == "Execute a shell command with optional timeout."@,
            r.parameters@ == execute_parameters(),
    {
        let mut props: Vec<(String, Json)> = Vec::new();
        props.push(entry("command", property("string", "Shell command to execute")));
        props.push(entry("timeout", property("integer", "Timeout in seconds (optional)")));
        let mut required: Vec<String> = Vec::new();
        required.push(owned("command"));
        proof {
            assert(entries_view(props@) =~= seq![
            ("command"@, prop("string"@, "Shell command to execute"@)),
            ("timeout"@, prop("integer"@, "Timeout in seconds (optional)"@)),
        ]);
            assert(views(required@) =~= seq!["command"@]);
        }
        ToolDefinition {
            name: owned("execute"),
            description: owned("Execute a shell command with optional timeout."),
            parameters: schema(props, &required),
        }
    }
}

/// The parameters of `task_done`.
pub open spec fn task_done_parameters() -> JsonView {
    object_schema(
        seq![
            ("summary"@, prop("string"@, "Summary of what was accomplished"@)),
            ("success"@, prop("boolean"@, "Whether the task succeeded"@)),
        ],
        seq!["summary"@, "success"@],
    )
}

impl crate::tools::done::TaskDoneTool {
    /// The tool's name.
    pub fn name(&self) -> (r: &'static str)
        ensures
            r@ == "task_done"@,
    {
        "task_done"
    }

    /// The tool as it is offered to the model.
    pub fn definition(&self) -> (r: ToolDefinition)
        ensures
            r.name@ == "task_done"@,
            r.description@ == "Signal that the current task is complete."@,
            r.parameters@ == task_done_parameters(),
    {
        let mut props: Vec<(String, Json)> = Vec::new();
        props.push(entry("summary", property("string", "Summary of what was accomplished")));
        props.push(entry("success", property("boolean", "Whether the task succeeded")));
        let mut required: Vec<String> = Vec::new();
        required.push(owned("summary"));
        required.push(owned("success"));
        proof {
            assert(entries_view(props@) =~= seq![
            ("summary"@, prop("string"@, "Summary of what was accomplished"@)),
            ("success"@, prop("boolean"@, "Whether the task succeeded"@)),
        ]);
            assert(views(required@) =~= seq!["summary"@, "success"@]);
        }
        ToolDefinition {
            name: owned("task_done"),
            description: owned("Signal that the current task is complete."),
            parameters: schema(props, &required),
        }
    }
}


/// A property with a type alone.
pub open spec fn typed(ty: Seq<char>) -> JsonView {
    JsonView::Object(seq![("type"@, JsonView::Str(ty))])
}

/// The schema of one todo item.
pub open spec fn todo_item_schema() -> JsonView {
    object_schema(
        seq![
            ("id"@, typed("string"@)),
            ("content"@, typed("string"@)),
            ("status"@, typed("string"@)),
            ("priority"@, typed("string"@)),
        ],
        seq!["id"@, "content"@, "status"@, "priority"@],
    )
}

/// The parameters of `write_todos`.
pub open spec fn write_todos_parameters() -> JsonView {
    object_schema(
        seq![
            ("todos"@, JsonView::Object(seq![("type"@, JsonView::Str("array"@)), ("items"@, todo_item_schema())])),
        ],
        seq!["todos"@],
    )
}

fn type_only(ty: &str) -> (r: Json)
    ensures
        r@ == typed(ty@),
{
    let mut e: Vec<(String, Json)> = Vec::new();
    e.push(entry("type", Json::string(ty)));
    let r = Json::object(e);
    proof {
        assert(r@->Object_0 =~= typed(ty@)->Object_0);
    }
    r
}

fn todo_item_json() -> (r: Json)
    ensures
        r@ == todo_item_schema(),
{
    let mut props: Vec<(String, Json)> = Vec::new();
    props.push(entry("id", type_only("string")));
    props.push(entry("content", type_only("string")));
    props.push(entry("status", type_only("string")));
    props.push(entry("priority", type_only("string")));
    let mut required: Vec<String> = Vec::new();
    required.push(owned("id"));
    required.push(owned("content"));
    required.push(owned("status"));
    required.push(owned("priority"));
    proof {
        assert(entries_view(props@) =~= seq![
            ("id"@, typed("string"@)),
            ("content"@, typed("string"@)),
            ("status"@, typed("string"@)),
            ("priority"@, typed("string"@)),
        ]);
        assert(views(required@) =~= seq!["id"@, "content"@, "status"@, "priority"@]);
    }
    schema(props, &required)
}

impl crate::tools::todos::TodosTool {
    /// The tool's name.
    pub fn name(&self) -> (r: &'static str)
        ensures
            r@ == "write_todos"@,
    {
        "write_todos"
    }

    /// The tool as it is offered to the model.
    pub fn definition(&self) -> (r: ToolDefinition)
        ensures
            r.name@ == "write_todos"@,
            r.description@ == "Update the internal todo list."@,
            r.parameters@ == write_todos_parameters(),
    {
        let mut list: Vec<(String, Json)> = Vec::new();
        list.push(entry("type", Json::string("array")));
        list.push(entry("items", todo_item_json()));
        let todos = Json::object(list);
        proof {
            assert(todos@->Object_0 =~= seq![("type"@, JsonView::Str("array"@)), ("items"@, todo_item_schema())]);
        }
        let ghost tv = todos@;
        let mut props: Vec<(String, Json)> = Vec::new();
        props.push(entry("todos", todos));
        let mut required: Vec<String> = Vec::new();
        required.push(owned("todos"));
        proof {
            assert(entries_view(props@) =~= seq![("todos"@, tv)]);
            assert(views(required@) =~= seq!["todos"@]);
        }
        ToolDefinition {
            name: owned("write_todos"),
            description: owned("Update the internal todo list."),
            parameters: schema(props, &required),
        }
    }
}

impl crate::tools::compact::CompactTool {
    /// The tool's name.
    pub fn name(&self) -> (r: &'static str)
        ensures
            r@ == "compact_conversation"@,
    {
        "compact_conversation"
    }

    /// The tool as it is offered to the model: it takes no parameters.
    pub fn definition(&self) -> (r: ToolDefinition)
        ensures
            r.name@ == "compact_conversation"@,
            r.description@ == "Trigger conversation compaction to reduce context length."@,
            r.parameters@ == open_schema(seq![]),
    {
        let props: Vec<(String, Json)> = Vec::new();
        proof {
            assert(entries_view(props@) =~= seq![]);
        }
        ToolDefinition {
            name: owned("compact_conversation"),
            description: owned("Trigger conversation compaction to reduce context length."),
            parameters: open_object(props),
        }
    }
}

/// The parameters of a skill script.
pub open spec fn script_parameters() -> JsonView {
    open_schema(seq![("args"@, prop("string"@, "Arguments to pass to the script"@))])
}

impl crate::tools::skill_tool::SkillScriptTool {
    /// The tool's name, which it was made with.
    pub fn name(&self) -> (r: &str)
        ensures
            r@ == self.tool_name@,
    {
        self.tool_name.as_str()
    }

    /// The tool as it is offered to the model.
    pub fn definition(&self) -> (r: ToolDefinition)
        ensures
            r.name@ == self.tool_name@,
            r.description@ == self.description@,
            r.parameters@ == script_parameters(),
    {
        let mut props: Vec<(String, Json)> = Vec::new();
        props.push(entry("args", property("string", "Arguments to pass to the script")));
        proof {
            assert(entries_view(props@) =~= seq![("args"@, prop("string"@, "Arguments to pass to the script"@))]);
        }
        ToolDefinition {
            name: self.tool_name.clone(),
            description: self.description.clone(),
            parameters: open_object(props),
        }
    }
}

/// The names of the sub-agents, in order.
pub open spec fn subagent_names(configs: Seq<crate::config::SubAgentConfig>) -> Seq<Seq<char>> {
    Seq::new(configs.len(), |i: int| configs[i].name@)
}

/// The parameters of `task`: the sub-agent type is one of the configured names.
pub open spec fn task_parameters(configs: Seq<crate::config::SubAgentConfig>) -> JsonView {
    object_schema(
        seq![
            ("description"@, prop("string"@, "Description of the task to delegate"@)),
            ("subagent_type"@, JsonView::Object(seq![
                ("type"@, JsonView::Str("string"@)),
                ("description"@, JsonView::Str("The type of sub-agent to use"@)),
                ("enum"@, name_list(subagent_names(configs))),
            ])),
        ],
        seq!["description"@, "subagent_type"@],
    )
}

impl crate::tools::subagent::SubAgentTool {
    /// The tool's name.
    pub fn name(&self) -> (r: &'static str)
        ensures
            r@ == "task"@,
    {
        "task"
    }

    /// The tool as it is offered to the model.
    pub fn definition(&self) -> (r: ToolDefinition)
        ensures
            r.name@ == "task"@,
            r.description@ == "Delegate a sub-task to a specialized sub-agent."@,
            r.parameters@ == task_parameters(self.configs@),
    {
        let mut names: Vec<String> = Vec::new();
        let mut i: usize = 0;
        while i < self.configs.len()
            invariant
                i <= self.configs@.len(),
                views(names@) =~= subagent_names(self.configs@).take(i as int),
            decreases self.configs@.len() - i,
        {
            let ghost before = names@;
            let n = self.configs[i].name.clone();
            names.push(n);
            proof {
                assert(names@ =~= before.push(n));
                assert(views(names@) =~= views(before).push(n@));
                assert(views(names@) =~= subagent_names(self.configs@).take(i + 1));
            }
            i += 1;
        }
        proof {
            assert(views(names@) =~= subagent_names(self.configs@));
        }
        let mut kind: Vec<(String, Json)> = Vec::new();
        kind.push(entry("type", Json::string("string")));
        kind.push(entry("description", Json::string("The type of sub-agent to use")));
        kind.push(entry("enum", names_json(&names)));
        let kind = Json::object(kind);
        let ghost kv = kind@;
        proof {
            assert(kv->Object_0 =~= seq![
                ("type"@, JsonView::Str("string"@)),
                ("description"@, JsonView::Str("The type of sub-agent to use"@)),
                ("enum"@, name_list(subagent_names(self.configs@))),
            ]);
        }
        let mut props: Vec<(String, Json)> = Vec::new();
        props.push(entry("description", property("string", "Description of the task to delegate")));
        props.push(entry("subagent_type", kind));
        let mut required: Vec<String> = Vec::new();
        required.push(owned("description"));
        required.push(owned("subagent_type"));
        proof {
            assert(entries_view(props@) =~= seq![
                ("description"@, prop("string"@, "Description of the task to delegate"@)),
                ("subagent_type"@, kv),
            ]);
            assert(views(required@) =~= seq!["description"@, "subagent_type"@]);
        }
        ToolDefinition {
            name: owned("task"),
            description: owned("Delegate a sub-task to a specialized sub-agent."),
            parameters: schema(props, &required),
        }
    }
}

impl FilesystemTool {
    /// The name of the tool held.
    pub fn name(&self) -> (r: &'static str)
        ensures
            r@ == (match *self {
                FilesystemTool::Ls(_) => "ls"@,
                FilesystemTool::ReadFile(_) => "read_file"@,
                FilesystemTool::WriteFile(_) => "write_file"@,
                FilesystemTool::EditFile(_) => "edit_file"@,
                FilesystemTool::Glob(_) => "glob"@,
                FilesystemTool::Grep(_) => "grep"@,
            }),
    {
        match self {
            FilesystemTool::Ls(t) => t.name(),
            FilesystemTool::ReadFile(t) => t.name(),
            FilesystemTool::WriteFile(t) => t.name(),
            FilesystemTool::EditFile(t) => t.name(),
            FilesystemTool::Glob(t) => t.name(),
            FilesystemTool::Grep(t) => t.name(),
        }
    }

    /// The definition of the tool held.
    pub fn definition(&self) -> (r: ToolDefinition)
        ensures
            r.parameters@ == (match *self {
                FilesystemTool::Ls(_) => ls_parameters(),
                FilesystemTool::ReadFile(_) => read_file_parameters(),
                FilesystemTool::WriteFile(_) => write_file_parameters(),
                FilesystemTool::EditFile(_) => edit_file_parameters(),
                FilesystemTool::Glob(_) => glob_parameters(),
                FilesystemTool::Grep(_) => grep_parameters(),
            }),
            r.name@ == (match *self {
                FilesystemTool::Ls(_) => "ls"@,
                FilesystemTool::ReadFile(_) => "read_file"@,
                FilesystemTool::WriteFile(_) => "write_file"@,
                FilesystemTool::EditFile(_) => "edit_file"@,
                FilesystemTool::Glob(_) => "glob"@,
                FilesystemTool::Grep(_) => "grep"@,
            }),
    {
        match self {
            FilesystemTool::Ls(t) => t.definition(),
            FilesystemTool::ReadFile(t) => t.definition(),
            FilesystemTool::WriteFile(t) => t.definition(),
            FilesystemTool::EditFile(t) => t.definition(),
            FilesystemTool::Glob(t) => t.definition(),
            FilesystemTool::Grep(t) => t.definition(),
        }
    }
}

} // verus!
