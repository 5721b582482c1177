use agent_runner::agent_dir::AgentDir;
use agent_runner::cli::Cli;
use agent_runner::config::{Config, SubAgentConfig};
use agent_runner::json::Json;
use agent_runner::provider::{request_body, ToolDefinition};
use agent_runner::tools::compact::CompactTool;
use agent_runner::tools::done::TaskDoneTool;
use agent_runner::tools::execute::ExecuteTool;
use agent_runner::tools::filesystem::{create_filesystem_tools, ReadFileTool};
use agent_runner::tools::skill_tool::SkillScriptTool;
use agent_runner::tools::subagent::SubAgentTool;
use agent_runner::tools::todos::TodosTool;

fn render(j: &Json) -> String {
    match j {
        Json::Null => "null".to_string(),
        Json::Bool(b) => b.to_string(),
        Json::Number(n) => n.clone(),
        Json::Str(s) => format!("\"{}\"", s),
        Json::Array(v) => format!("[{}]", v.iter().map(render).collect::<Vec<_>>().join(",")),
        Json::Object(e) => format!(
            "{{{}}}",
            e.iter().map(|(k, v)| format!("\"{}\":{}", k, render(v))).collect::<Vec<_>>().join(",")
        ),
    }
}

fn subagent(name: &str) -> SubAgentConfig {
    SubAgentConfig {
        name: name.into(),
        description: "d".into(),
        system_prompt: "p".into(),
        model: None,
        tools: None,
        skills: None,
        permissions: None,
    }
}

#[test]
fn read_file_schema_has_defaults() {
    let d: ToolDefinition = ReadFileTool { working_dir: "/w".into() }.definition();
    assert_eq!(d.name, "read_file");
    assert_eq!(
        render(&d.parameters),
        "{\"type\":\"object\",\"properties\":{\"file_path\":{\"type\":\"string\",\"description\":\"Path to the file\"},\
\"offset\":{\"type\":\"integer\",\"description\":\"Starting line number (0-based)\",\"default\":0},\
\"limit\":{\"type\":\"integer\",\"description\":\"Maximum number of lines to read\",\"default\":100}},\
\"required\":[\"file_path\"]}"
    );
}

#[test]
fn filesystem_tools_are_named_in_order() {
    let names: Vec<&str> = create_filesystem_tools("/w").iter().map(|t| t.name()).collect();
    assert_eq!(names, vec!["ls", "read_file", "write_file", "edit_file", "glob", "grep"]);
    let defs: Vec<String> = create_filesystem_tools("/w").iter().map(|t| t.definition().name).collect();
    assert_eq!(defs, vec!["ls", "read_file", "write_file", "edit_file", "glob", "grep"]);
}

#[test]
fn other_tool_definitions() {
    let e = ExecuteTool::new("/w".into(), 30).definition();
    assert_eq!(e.name, "execute");
    assert_eq!(
        render(&e.parameters),
        "{\"type\":\"object\",\"properties\":{\"command\":{\"type\":\"string\",\"description\":\"Shell command to execute\"},\
\"timeout\":{\"type\":\"integer\",\"description\":\"Timeout in seconds (optional)\"}},\"required\":[\"command\"]}"
    );
    let d = TaskDoneTool.definition();
    assert_eq!((d.name.as_str(), d.description.as_str()), ("task_done", "Signal that the current task is complete."));
    let c = CompactTool::new().definition();
    assert_eq!(c.name, "compact_conversation");
    assert_eq!(render(&c.parameters), "{\"type\":\"object\",\"properties\":{}}");
    let t = TodosTool::new().definition();
    assert_eq!(t.name, "write_todos");
    assert_eq!(
        render(&t.parameters),
        "{\"type\":\"object\",\"properties\":{\"todos\":{\"type\":\"array\",\"items\":{\"type\":\"object\",\
\"properties\":{\"id\":{\"type\":\"string\"},\"content\":{\"type\":\"string\"},\"status\":{\"type\":\"string\"},\
\"priority\":{\"type\":\"string\"}},\"required\":[\"id\",\"content\",\"status\",\"priority\"]}}},\"required\":[\"todos\"]}"
    );
}

#[test]
fn script_tool_definition_uses_its_name() {
    let tool = SkillScriptTool::new("skill_a_run.sh".into(), "/s/run.sh".into(), "Execute skill script: a (run.sh)".into());
    assert_eq!(tool.name(), "skill_a_run.sh");
    let d = tool.definition();
    assert_eq!(d.name, "skill_a_run.sh");
    assert_eq!(d.description, "Execute skill script: a (run.sh)");
    assert_eq!(
        render(&d.parameters),
        "{\"type\":\"object\",\"properties\":{\"args\":{\"type\":\"string\",\"description\":\"Arguments to pass to the script\"}}}"
    );
}

#[test]
fn task_tool_lists_subagent_types() {
    let tool = SubAgentTool { configs: vec![subagent("researcher"), subagent("coder")] };
    let d = tool.definition();
    assert_eq!(d.name, "task");
    assert_eq!(
        render(&d.parameters),
        "{\"type\":\"object\",\"properties\":{\"description\":{\"type\":\"string\",\"description\":\"Description of the task to delegate\"},\
\"subagent_type\":{\"type\":\"string\",\"description\":\"The type of sub-agent to use\",\"enum\":[\"researcher\",\"coder\"]}},\
\"required\":[\"description\",\"subagent_type\"]}"
    );
}

#[test]
fn cli_defaults() {
    let c = Cli::with_defaults("agents/a".into(), "do it".into());
    assert_eq!((c.agent_dir.as_str(), c.prompt.as_str()), ("agents/a", "do it"));
    assert!(!c.plan_only && !c.verbose && !c.sandbox);
    assert_eq!(c.max_iterations, 50);
    assert_eq!(c.output_dir, "./agent-output");
    assert_eq!(c.working_dir, ".");
    assert_eq!((c.tool_timeout, c.run_limit), (120, 3600));
    assert!(c.mail_to.is_none());
    let l = c.loop_config();
    assert_eq!((l.max_iterations, l.tool_timeout_secs, l.run_limit_secs, l.verbose), (50, 120, 3600, false));
    let mut agent = Config::default().agent;
    assert!(c.wants_plan(&agent));
    agent.plan_required = false;
    assert!(!c.wants_plan(&agent));
    let mut only = Cli::with_defaults("a".into(), "p".into());
    only.plan_only = true;
    assert!(only.wants_plan(&agent));
}

#[test]
fn agent_dir_prompt_defaults() {
    let a = AgentDir::assemble("a".into(), None, Config::default(), vec![]);
    assert_eq!(a.system_prompt, "You are a helpful assistant.");
    let a = AgentDir::assemble("a".into(), Some("Be brief.".into()), Config::default(), vec![]);
    assert_eq!(a.system_prompt, "Be brief.");
    assert_eq!(a.dir, "a");
}

#[test]
fn request_bodies() {
    let b = request_body("m", 4096, Json::Number("0.7".into()), None, vec![], vec![]);
    assert_eq!(render(&b), "{\"model\":\"m\",\"messages\":[],\"max_tokens\":4096,\"temperature\":0.7}");
    let b = request_body(
        "m",
        10,
        Json::Number("0".into()),
        Some(Json::Str("sys".into())),
        vec![Json::Null],
        vec![Json::Bool(true)],
    );
    assert_eq!(
        render(&b),
        "{\"model\":\"m\",\"messages\":[null],\"max_tokens\":10,\"temperature\":0,\"system\":\"sys\",\"tools\":[true]}"
    );
}
