use agent_runner::json::Json;
use agent_runner::skills::Skill;
use agent_runner::tools::compact::CompactTool;
use agent_runner::tools::done::TaskDoneTool;
use agent_runner::tools::edit::{count_occurrences, replace_all_chars, replace_first_chars};
use agent_runner::tools::execute::{process_output, ExecuteTool};
use agent_runner::tools::filesystem::{
    create_filesystem_tools, resolve_path, EditFileTool, FilesystemTool, GlobTool,
    GrepTool, LsTool, ReadFileTool, WriteFileTool,
};
use agent_runner::tools::skill_tool::{from_skills, SkillScriptTool};
use agent_runner::tools::subagent::{from_configs, SubAgentTool};
use agent_runner::tools::todos::{TodoItem, TodosTool};
use agent_runner::tools::unknown_tool;
use agent_runner::config::SubAgentConfig;

fn obj(entries: Vec<(&str, Json)>) -> Json {
    Json::Object(entries.into_iter().map(|(k, v)| (k.to_string(), v)).collect())
}

fn s(t: &str) -> Json {
    Json::Str(t.to_string())
}

fn chars(t: &str) -> Vec<char> {
    t.chars().collect()
}

#[test]
fn occurrences_do_not_overlap() {
    assert_eq!(count_occurrences(&chars("aaaa"), &chars("aa")), 2);
    assert_eq!(count_occurrences(&chars("abcabc"), &chars("bc")), 2);
    assert_eq!(count_occurrences(&chars("abc"), &chars("x")), 0);
    for (hay, pat) in [("aaaa", "aa"), ("abab", "ab"), ("xyz", "z"), ("", "a")] {
        assert_eq!(count_occurrences(&chars(hay), &chars(pat)), hay.matches(pat).count());
    }
}

#[test]
fn replacements_follow_std() {
    for (hay, pat, new) in [("aaaa", "aa", "b"), ("abcabc", "bc", "X"), ("xyz", "q", "r"), ("aaa", "a", "aa")] {
        let all: String = replace_all_chars(&chars(hay), &chars(pat), &chars(new)).into_iter().collect();
        assert_eq!(all, hay.replace(pat, new));
        let first: String = replace_first_chars(&chars(hay), &chars(pat), &chars(new)).into_iter().collect();
        assert_eq!(first, hay.replacen(pat, new, 1));
    }
}

#[test]
fn replacing_text_by_itself_changes_nothing() {
    let hay = "one two one";
    let r: String = replace_all_chars(&chars(hay), &chars("one"), &chars("one")).into_iter().collect();
    assert_eq!(r, hay);
}

#[test]
fn edit_request_and_apply() {
    let tool = EditFileTool { working_dir: "/w".to_string() };
    let empty = tool.request(&obj(vec![("file_path", s("f.txt"))]));
    match empty {
        Err(o) => {
            assert_eq!(o.content, "old_string must not be empty");
            assert!(o.is_error);
        }
        Ok(_) => panic!("empty old_string accepted"),
    }
    let req = tool
        .request(&obj(vec![("file_path", s("f.txt")), ("old_string", s("a")), ("new_string", s("b"))]))
        .ok()
        .unwrap();
    assert_eq!(req.path, "/w/f.txt");
    assert!(!req.replace_all);
    match EditFileTool::apply(&req, "a a") {
        Err(o) => assert_eq!(o.content, "Found 2 occurrences. Use replace_all=true to replace all."),
        Ok(_) => panic!("ambiguous edit accepted"),
    }
    match EditFileTool::apply(&req, "xyz") {
        Err(o) => assert_eq!(o.content, "No occurrences found"),
        Ok(_) => panic!("edit without match accepted"),
    }
    let (text, n) = EditFileTool::apply(&req, "cat").ok().unwrap();
    assert_eq!((text.as_str(), n), ("cbt", 1));
    assert_eq!(EditFileTool::edited(&req, n).content, "Replaced 1 occurrence(s) in f.txt");
    let all = tool
        .request(&obj(vec![
            ("file_path", s("f.txt")),
            ("old_string", s("a")),
            ("new_string", s("b")),
            ("replace_all", Json::Bool(true)),
        ]))
        .ok()
        .unwrap();
    let (text, n) = EditFileTool::apply(&all, "a a").ok().unwrap();
    assert_eq!((text.as_str(), n), ("b b", 2));
}

#[test]
fn paths_resolve_like_path_join() {
    for (wd, input) in [("/w", "a.txt"), ("/w/", "a.txt"), ("/w", "/etc/x"), ("", "a"), ("w", ""), (".", "src")] {
        let expected = std::path::Path::new(wd).join(input).to_string_lossy().into_owned();
        assert_eq!(resolve_path(wd, input), expected, "{wd:?} {input:?}");
    }
}

#[test]
fn read_file_pages() {
    let tool = ReadFileTool { working_dir: "/w".to_string() };
    let req = tool.request(&obj(vec![("file_path", s("f")), ("offset", Json::Number("1".into())), ("limit", Json::Number("2".into()))]));
    assert_eq!((req.path.as_str(), req.offset, req.limit), ("/w/f", 1, 2));
    let d = tool.request(&obj(vec![]));
    assert_eq!((d.path.as_str(), d.offset, d.limit), ("/w/", 0, 100));
    let out = ReadFileTool::page("a\nb\nc\nd", 1, 2);
    assert_eq!(out.content, "Lines 1-2 of 4\nb\nc");
    assert!(!out.is_error);
    assert_eq!(ReadFileTool::page("a\nb", 5, 10).content, "Lines 5-4 of 2\n");
    assert_eq!(ReadFileTool::page("", 0, 10).content, "Lines 0-0 of 0\n");
    assert_eq!(ReadFileTool::failure("nope").content, "Error reading file: nope");
}

#[test]
fn ls_lists_sorted() {
    let tool = LsTool { working_dir: "/w".to_string() };
    assert_eq!(tool.target(&obj(vec![])), "/w/.");
    assert_eq!(tool.target(&obj(vec![("path", s("/tmp"))])), "/tmp");
    let out = LsTool::listing(vec!["b".into(), "a".into(), "c".into()]);
    assert_eq!(out.content, "a\nb\nc");
    assert!(LsTool::failure("x").is_error);
    assert_eq!(LsTool::failure("x").content, "Error listing directory: x");
}

#[test]
fn write_file_answers() {
    let tool = WriteFileTool { working_dir: "/w".to_string() };
    let req = tool.request(&obj(vec![("file_path", s("d/f")), ("content", s("hi"))]));
    assert_eq!((req.path.as_str(), req.file_path.as_str(), req.content.as_str()), ("/w/d/f", "d/f", "hi"));
    assert_eq!(WriteFileTool::written("d/f").content, "Successfully wrote to d/f");
    assert_eq!(WriteFileTool::directory_failure("e").content, "Error creating directories: e");
    assert_eq!(WriteFileTool::write_failure("e").content, "Error writing file: e");
}

#[test]
fn glob_pattern_and_results() {
    let tool = GlobTool { working_dir: "/w".to_string() };
    assert_eq!(tool.full_pattern(&obj(vec![("pattern", s("*.rs"))])), "/*.rs");
    assert_eq!(tool.full_pattern(&obj(vec![("pattern", s("*.rs")), ("path", s("src"))])), "/w/src/*.rs");
    assert_eq!(tool.full_pattern(&obj(vec![("pattern", s("/abs/*"))])), "/abs/*");
    assert_eq!(GlobTool::matches(&vec![]).content, "No matches found");
    assert_eq!(GlobTool::matches(&vec!["a".into(), "b".into()]).content, "a\nb");
    assert_eq!(GlobTool::invalid_pattern("bad").content, "Invalid glob pattern: bad");
}

#[test]
fn grep_searches_lines_with_regex() {
    let tool = GrepTool { working_dir: "/w".to_string() };
    let req = tool.request(&obj(vec![("pattern", s("fo+")), ("glob", s("*.rs"))]));
    assert_eq!(req.search_path, "/w/.");
    assert_eq!(req.glob.as_deref(), Some("*.rs"));
    let re = GrepTool::compile("fo+").ok().unwrap();
    let mut results = Vec::new();
    GrepTool::search_content("f.rs", "foo\nbar\nfooo", &re, &mut results);
    assert_eq!(results, vec!["f.rs:1: foo".to_string(), "f.rs:3: fooo".to_string()]);
    assert_eq!(GrepTool::finish(&results).content, "f.rs:1: foo\nf.rs:3: fooo");
    assert_eq!(GrepTool::finish(&vec![]).content, "No matches found");
    match GrepTool::compile("foo(") {
        Err(o) => assert!(o.content.starts_with("Invalid regex: ") && o.is_error),
        Ok(_) => panic!("an unbalanced group compiled"),
    }
    assert!(GrepTool::file_selected(&None, "x.txt"));
    assert!(GrepTool::file_selected(&Some("*.rs".into()), "main.rs"));
    assert!(!GrepTool::file_selected(&Some("*.rs".into()), "main.py"));
    assert!(!GrepTool::file_selected(&Some("[".into()), "["));
    assert_eq!(GrepTool::not_found("/nope").content, "Path not found: /nope");
    assert!(GrepTool::invalid_regex("e").content.starts_with("Invalid regex: "));
}

#[test]
fn filesystem_tools_in_order() {
    let tools = create_filesystem_tools("/w");
    assert_eq!(tools.len(), 6);
    assert!(matches!(tools[0], FilesystemTool::Ls(_)));
    assert!(matches!(tools[5], FilesystemTool::Grep(_)));
}

#[test]
fn execute_requests_and_reports() {
    let tool = ExecuteTool::new("/w".to_string(), 30);
    let (cmd, t) = tool.request(&obj(vec![("command", s("ls"))])).ok().unwrap();
    assert_eq!((cmd.as_str(), t), ("ls", 30));
    let (_, t) = tool.request(&obj(vec![("command", s("ls")), ("timeout", Json::Number("5".into()))])).ok().unwrap();
    assert_eq!(t, 5);
    match tool.request(&obj(vec![])) {
        Err(o) => assert_eq!(o.content, "Missing required argument: command"),
        Ok(_) => panic!("missing command accepted"),
    }
    let out = process_output(Some(0), true, b"out", b"err");
    assert_eq!(out.content, "Exit code: 0\nStdout:\nout\nStderr:\nerr");
    assert!(!out.is_error);
    let out = process_output(None, false, &[0xff], b"");
    assert_eq!(out.content, "Exit code: -1\nStdout:\n\u{fffd}\nStderr:\n");
    assert!(out.is_error);
    assert_eq!(ExecuteTool::timed_out(7).content, "Command timed out after 7 seconds");
    assert_eq!(ExecuteTool::spawn_failure("no sh").content, "Failed to execute command: no sh");
}

#[test]
fn task_done_acknowledges() {
    let out = TaskDoneTool::execute(&obj(vec![("summary", s("ok")), ("success", Json::Bool(true))]));
    assert_eq!(out.content, "Task completed. Success: true. Summary: ok");
    let out = TaskDoneTool::execute(&obj(vec![]));
    assert_eq!(out.content, "Task completed. Success: false. Summary: ");
}

#[test]
fn todos_replace_the_list() {
    let mut t = TodosTool::new();
    let item = TodoItem { id: "1".into(), content: "c".into(), status: "s".into(), priority: "p".into() };
    let out = t.update(Ok(vec![item]));
    assert_eq!(out.content, "Updated 1 todos");
    assert_eq!(t.state.len(), 1);
    let out = t.update(Err("missing field `id`".into()));
    assert_eq!(out.content, "Invalid todos format: missing field `id`");
    assert!(out.is_error);
    assert_eq!(t.state.len(), 1);
}

#[test]
fn compaction_trigger_is_consumed() {
    let mut c = CompactTool::new();
    assert!(!c.take_trigger());
    assert_eq!(c.execute().content, "Compaction triggered");
    assert!(c.take_trigger());
    assert!(!c.take_trigger());
}

fn subagent(name: &str) -> SubAgentConfig {
    SubAgentConfig {
        name: name.into(),
        description: "d".into(),
        system_prompt: "p".into(),
        model: None,
        tools: None,
        skills: Some(vec!["s".into()]),
        permissions: None,
    }
}

#[test]
fn subagent_tool_queues_known_types() {
    assert!(from_configs(&vec![]).is_empty());
    let tools = from_configs(&vec![subagent("researcher")]);
    assert_eq!(tools.len(), 1);
    let tool: &SubAgentTool = &tools[0];
    assert_eq!(tool.configs[0].name, "researcher");
    let out = tool.execute(&obj(vec![("description", s("look")), ("subagent_type", s("researcher"))]));
    assert_eq!(out.content, "Sub-agent task queued: type=researcher, description=look");
    let out = tool.execute(&obj(vec![("subagent_type", s("coder"))]));
    assert_eq!(out.content, "Unknown sub-agent type: coder");
    assert!(out.is_error);
}

#[test]
fn skill_scripts_become_tools() {
    let skill = Skill {
        name: "search".into(),
        dir_path: "/a/skills/search".into(),
        instructions: "Use it.".into(),
        references: vec!["r1".into(), "r2".into()],
        scripts: vec!["/a/skills/search/scripts/run.sh".into(), "/a/skills/search/..".into()],
    };
    assert_eq!(skill.full_context(), "Use it.\n\n--- Reference 1 ---\nr1\n\n--- Reference 2 ---\nr2");
    let tools = from_skills(&vec![skill]);
    assert_eq!(tools.len(), 2);
    assert_eq!(tools[0].tool_name, "skill_search_run.sh");
    assert_eq!(tools[0].description, "Execute skill script: search (run.sh)");
    assert_eq!(tools[1].tool_name, "skill_search_unknown");
    let t = SkillScriptTool::new("x".into(), "/s.sh".into(), "d".into());
    assert_eq!(t.command(&obj(vec![("args", s("-v"))])), "/s.sh -v");
    assert_eq!(t.command(&obj(vec![("args", s(""))])), "/s.sh");
    assert_eq!(SkillScriptTool::timed_out().content, "Script timed out after 60 seconds");
    assert_eq!(SkillScriptTool::spawn_failure("e").content, "Failed to execute script: e");
}

#[test]
fn empty_skill_context() {
    let skill = Skill { name: "n".into(), dir_path: "/d".into(), instructions: String::new(), references: vec![], scripts: vec![] };
    assert_eq!(skill.full_context(), "");
}

#[test]
fn unknown_tools_are_errors() {
    let out = unknown_tool("frobnicate");
    assert_eq!(out.content, "Unknown tool: frobnicate");
    assert!(out.is_error);
}
