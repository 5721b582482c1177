use agent_runner::agent::planner::task_messages;
use agent_runner::agent_dir::AgentDir;
use agent_runner::config::{llm_identity, provider_kind, set_named_entry, Config, ConfigError, ProviderKind};
use agent_runner::env_file::{parse_env_file, parse_env_line};
use agent_runner::json::Json;
use agent_runner::mcp::mcp_answer;
use agent_runner::mcp::transport::{content_length, frame, push_header_byte, HeaderProgress};
use agent_runner::text::{fmt_u64, parse_u64};
use agent_runner::provider::{status_error, ProviderError, ToolDefinition};
use agent_runner::skills::{skill_name, skill_name_from, Skill};
use agent_runner::tools::skill_tool::script_tool;
use agent_runner::trace::{trace_entry, TraceSequence};
use agent_runner::tools::registry::{builtin_tools, find_tool, tool_definitions, tool_names, AnyTool};

#[test]
fn builtin_tool_order() {
    let names = tool_names(&builtin_tools("/w", false, false, 30));
    assert_eq!(
        names,
        vec!["ls", "read_file", "write_file", "edit_file", "glob", "grep", "task_done", "write_todos", "compact_conversation"]
    );
    let with_exec = tool_names(&builtin_tools("/w", false, true, 30));
    assert_eq!(with_exec[6], "execute");
    assert_eq!(with_exec.len(), 10);
    let enabled = builtin_tools("/w", true, false, 30);
    match &enabled[6] {
        AnyTool::Execute(t) => assert_eq!((t.working_dir.as_str(), t.default_timeout), ("/w", 30)),
        _ => panic!("execute missing"),
    }
}

#[test]
fn tools_are_found_by_name() {
    let mut tools = builtin_tools("/w", false, false, 30);
    tools.push(AnyTool::Mcp(ToolDefinition {
        name: "search".into(),
        description: "Search the web".into(),
        parameters: Json::Object(vec![]),
    }));
    tools.push(AnyTool::Mcp(ToolDefinition {
        name: "grep".into(),
        description: "shadowed".into(),
        parameters: Json::Null,
    }));
    assert_eq!(find_tool(&tools, "grep"), Some(5));
    assert_eq!(find_tool(&tools, "search"), Some(9));
    assert_eq!(find_tool(&tools, "nope"), None);
    let defs = tool_definitions(&tools);
    assert_eq!(defs.len(), 11);
    assert_eq!(defs[9].description, "Search the web");
    assert_eq!(defs[0].name, "ls");
}

#[test]
fn env_file_lines() {
    let text = "# settings\nLLM_PROVIDER=anthropic\n\n  LLM_MODEL = \"large-model\" \nBROKEN\n=nokey\nKEY='a=b'\r\n";
    let pairs = parse_env_file(text);
    assert_eq!(
        pairs,
        vec![
            ("LLM_PROVIDER".to_string(), "anthropic".to_string()),
            ("LLM_MODEL".to_string(), "large-model".to_string()),
            ("KEY".to_string(), "a=b".to_string()),
        ]
    );
    assert_eq!(parse_env_line("A="), Some(("A".to_string(), String::new())));
    assert_eq!(parse_env_line("#A=1"), None);
    assert_eq!(parse_env_line("Q=\""), Some(("Q".to_string(), "\"".to_string())));
}

#[test]
fn task_starts_with_prompt_and_plan() {
    let m = task_messages("sys", "Fix it", "");
    assert_eq!(m.len(), 2);
    assert_eq!(m[0].role, "system");
    assert_eq!(m[0].content.as_deref(), Some("sys"));
    assert_eq!(m[1].content.as_deref(), Some("Fix it"));
    let m = task_messages("sys", "Fix it", "1. look\n2. fix");
    assert_eq!(m[1].role, "user");
    assert_eq!(m[1].content.as_deref(), Some("Fix it\n\nPlan:\n1. look\n2. fix"));
}

#[test]
fn system_prompt_includes_skills() {
    let skill = Skill {
        name: "search".into(),
        dir_path: "/a/skills/search".into(),
        instructions: "Use rg.".into(),
        references: vec!["ref one".into()],
        scripts: vec![],
    };
    let empty = Skill {
        name: "bare".into(),
        dir_path: "/a/skills/bare".into(),
        instructions: String::new(),
        references: vec![],
        scripts: vec![],
    };
    let a = AgentDir::assemble("/a".into(), Some("Be brief.".into()), Config::default(), vec![skill, empty]);
    assert_eq!(
        a.full_system_prompt(),
        "Be brief.\n\n## Skill: search\n\nUse rg.\n\n--- Reference 1 ---\nref one\n\n## Skill: bare\n\n"
    );
    let plain = AgentDir::assemble("/a".into(), None, Config::default(), vec![]);
    assert_eq!(plain.full_system_prompt(), "You are a helpful assistant.");
}

#[test]
fn provider_selection() {
    assert!(matches!(provider_kind("anthropic"), ProviderKind::Anthropic));
    assert!(matches!(provider_kind("openai"), ProviderKind::OpenAi));
    assert!(matches!(provider_kind("Anthropic"), ProviderKind::OpenAi));
}

#[test]
fn http_status_errors() {
    assert!(matches!(status_error(429, "429 Too Many Requests", "x"), ProviderError::RateLimited));
    assert!(matches!(status_error(408, "408 Request Timeout", ""), ProviderError::Timeout));
    match status_error(500, "500 Internal Server Error", "boom") {
        ProviderError::Api(m) => assert_eq!(m, "500 Internal Server Error: boom"),
        _ => panic!("expected an API error"),
    }
    assert_eq!(status_error(404, "404 Not Found", "").message(), "API error: 404 Not Found: ");
}

#[test]
fn mcp_answers() {
    let ok = mcp_answer(Ok("done".into()));
    assert_eq!((ok.content.as_str(), ok.is_error), ("done", false));
    let err = mcp_answer(Err("No MCP server found for tool 'x'".into()));
    assert!(err.is_error);
    assert_eq!(err.content, "No MCP server found for tool 'x'");
}

#[test]
fn header_limit_counts_bytes() {
    let mut h = String::new();
    let mut last = HeaderProgress::Incomplete;
    for _ in 0..600 {
        last = push_header_byte(&mut h, 0xe9);
    }
    assert_eq!(h.chars().count(), 600);
    assert!(matches!(last, HeaderProgress::TooLong));
    let mut h = String::new();
    for _ in 0..1024 {
        last = push_header_byte(&mut h, b'a');
    }
    assert!(matches!(last, HeaderProgress::Incomplete));
    assert!(matches!(push_header_byte(&mut h, b'a'), HeaderProgress::TooLong));
}

#[test]
fn frame_header_announces_body_bytes() {
    let framed = frame("{\"a\":\"é\"}");
    let end = framed.find("\r\n\r\n").unwrap() + 4;
    let mut header = String::new();
    let mut progress = HeaderProgress::Incomplete;
    for b in framed[..end].bytes() {
        assert!(matches!(progress, HeaderProgress::Incomplete));
        progress = push_header_byte(&mut header, b);
    }
    assert!(matches!(progress, HeaderProgress::Complete));
    assert_eq!(content_length(&header), Ok(10));
    assert_eq!(&framed[end..], "{\"a\":\"é\"}");
}

#[test]
fn decimal_text_reads_back() {
    for n in [0u64, 7, 10, 99, 12345, u64::MAX] {
        assert_eq!(parse_u64(&fmt_u64(n)), Some(n));
    }
}

#[test]
fn trace_numbers_follow_the_log_order() {
    let mut seq = TraceSequence::new();
    for k in 0..5u64 {
        assert_eq!(seq.take(), k);
    }
    let e = trace_entry("init", Json::Object(vec![("model".into(), Json::Str("m".into()))]), 5, "t");
    assert_eq!(e.get("seq").and_then(|v| v.as_u64()), Some(5));
    assert_eq!(e.get("event").and_then(|v| v.as_str()), Some("init"));
    assert_eq!(e.get("timestamp").and_then(|v| v.as_str()), Some("t"));
    assert_eq!(e.get("model").and_then(|v| v.as_str()), Some("m"));
    let e = trace_entry("x", Json::Bool(true), 0, "t");
    assert!(matches!(e.get("data"), Some(Json::Bool(true))));
}

#[test]
fn skill_and_script_names() {
    assert_eq!(skill_name("/a/skills/search"), Ok("search".to_string()));
    assert_eq!(skill_name("/"), Err("Invalid skill directory path".to_string()));
    assert_eq!(skill_name_from(None), Err("Invalid skill directory path".to_string()));
    let t = script_tool("search", "/s/run.sh", Some("run.sh".into()));
    assert_eq!(t.tool_name, "skill_search_run.sh");
    assert_eq!(t.description, "Execute skill script: search (run.sh)");
    assert_eq!(t.script_path, "/s/run.sh");
    assert_eq!(script_tool("s", "/", None).tool_name, "skill_s_unknown");
}

#[test]
fn llm_identity_reports_the_first_missing_variable() {
    assert!(matches!(llm_identity(Some("openai".into()), Some("m".into())), Ok((p, m)) if p == "openai" && m == "m"));
    assert!(matches!(llm_identity(None, None), Err(ConfigError::MissingEnv(v)) if v == "LLM_PROVIDER"));
    assert!(matches!(llm_identity(Some("p".into()), None), Err(ConfigError::MissingEnv(v)) if v == "LLM_MODEL"));
}

#[test]
fn named_entries_stay_unique() {
    let mut env: Vec<(String, String)> = Vec::new();
    set_named_entry(&mut env, "A".into(), "1".into());
    set_named_entry(&mut env, "B".into(), "2".into());
    set_named_entry(&mut env, "A".into(), "3".into());
    assert_eq!(env, vec![("A".to_string(), "3".to_string()), ("B".to_string(), "2".to_string())]);
}
