use agent_runner::agent::agent_loop::{
    answer_tool_call, call_path, config_error_exit_code, tool_operation, tool_timeout_message, LoopConfig,
    LoopState, ResponseStep, ToolGate,
};
use agent_runner::agent::planner::{count_steps, plan_messages, plan_text};
use agent_runner::agent::subagent::{SubAgentRun, SubAgentStep};
use agent_runner::config::{FilesystemPermission, SubAgentConfig, SummarizationConfig};
use agent_runner::json::Json;
use agent_runner::permissions::PermissionEvaluator;
use agent_runner::provider::{Message, ProviderResponse, ToolCall, Usage};
use agent_runner::summarization::Summarizer;

fn obj(entries: Vec<(&str, Json)>) -> Json {
    Json::Object(entries.into_iter().map(|(k, v)| (k.to_string(), v)).collect())
}

fn call(id: &str, name: &str, args: Json) -> ToolCall {
    ToolCall { id: id.into(), name: name.into(), arguments: args }
}

fn response(content: Option<&str>, calls: Vec<ToolCall>, done: bool) -> ProviderResponse {
    ProviderResponse {
        content: content.map(|c| c.to_string()),
        tool_calls: calls,
        usage: Usage { input_tokens: 10, output_tokens: 3 },
        reasoning: None,
        done,
    }
}

fn config(max: u32) -> LoopConfig {
    LoopConfig { max_iterations: max, tool_timeout_secs: 120, run_limit_secs: 3600, verbose: false }
}

#[test]
fn iteration_limit_ends_the_run() {
    let mut st = LoopState::new();
    let cfg = config(1);
    assert!(st.begin_iteration(&cfg, false).is_none());
    let o = st.begin_iteration(&cfg, false).unwrap();
    assert_eq!(o.status, "max_iterations_reached");
    assert_eq!(o.exit_code, 2);
    assert_eq!(o.total_iterations, 1);
    assert_eq!(o.final_text, "Max iterations reached");
}

#[test]
fn run_limit_ends_the_run() {
    let mut st = LoopState::new();
    let o = st.begin_iteration(&config(50), true).unwrap();
    assert_eq!(o.status, "run_limit_exceeded");
    assert_eq!(o.exit_code, 2);
    assert_eq!(o.final_text, "Run limit of 3600s exceeded");
    assert_eq!(o.total_iterations, 1);
}

#[test]
fn reply_without_tools_completes() {
    let mut st = LoopState::new();
    st.begin_iteration(&config(5), false);
    let mut messages = vec![Message::user("hi".into())];
    match st.take_response(&mut messages, response(Some("done!"), vec![], false)) {
        ResponseStep::Finished(o) => {
            assert_eq!(o.status, "completed");
            assert_eq!(o.exit_code, 0);
            assert_eq!(o.final_text, "done!");
            assert_eq!((o.total_input_tokens, o.total_output_tokens), (10, 3));
            assert_eq!(o.total_iterations, 1);
        }
        _ => panic!("expected the run to end"),
    }
    assert_eq!(messages.len(), 2);
    assert_eq!(messages[1].role, "assistant");
    assert!(messages[1].tool_calls.is_none());
}

#[test]
fn llm_failure_fails_the_run() {
    let st = LoopState::new();
    let o = st.llm_failed("Rate limited");
    assert_eq!((o.status.as_str(), o.exit_code, o.final_text.as_str()), ("failed", 1, "LLM error: Rate limited"));
}

fn rule(ops: &[&str], paths: &[&str], mode: &str) -> FilesystemPermission {
    FilesystemPermission {
        operations: ops.iter().map(|s| s.to_string()).collect(),
        paths: paths.iter().map(|s| s.to_string()).collect(),
        mode: mode.into(),
    }
}

#[test]
fn tool_calls_are_gated_by_permission() {
    let ev = PermissionEvaluator::new(vec![rule(&["read"], &["./*"], "allow")]);
    let mut st = LoopState::new();
    let read = call("1", "read_file", obj(vec![("file_path", Json::Str("./a".into()))]));
    assert!(matches!(st.gate_tool_call(&ev, &read), ToolGate::Run));
    let write = call("2", "write_file", obj(vec![("file_path", Json::Str("./a".into()))]));
    match st.gate_tool_call(&ev, &write) {
        ToolGate::Denied { operation, path, message } => {
            assert_eq!(operation, "write");
            assert_eq!(path, "./a");
            assert_eq!(message, "Permission denied: write access to ./a");
        }
        ToolGate::Run => panic!("write was allowed"),
    }
    let ls = call("3", "ls", obj(vec![("path", Json::Str("/etc".into()))]));
    assert!(matches!(st.gate_tool_call(&ev, &ls), ToolGate::Denied { .. }));
    let other = call("4", "task_done", obj(vec![]));
    assert!(matches!(st.gate_tool_call(&ev, &other), ToolGate::Run));
    let o = st.llm_failed("x");
    assert_eq!((o.total_tool_calls, o.permission_denials), (4, 2));
}

#[test]
fn task_done_decides_the_outcome() {
    let mut st = LoopState::new();
    st.begin_iteration(&config(5), false);
    let calls = vec![
        call("1", "ls", obj(vec![])),
        call("2", "task_done", obj(vec![("summary", Json::Str("all good".into())), ("success", Json::Bool(false))])),
    ];
    let mut messages = vec![];
    let step = st.take_response(&mut messages, response(None, calls, true));
    let calls = match step {
        ResponseStep::ToolCalls { calls, done } => {
            assert!(done);
            calls
        }
        _ => panic!("expected tool calls"),
    };
    let o = st.task_done(&calls);
    assert_eq!((o.status.as_str(), o.exit_code, o.final_text.as_str()), ("failed", 1, "all good"));
    let o = st.task_done(&vec![call("9", "task_done", obj(vec![]))]);
    assert_eq!((o.status.as_str(), o.exit_code, o.final_text.as_str()), ("completed", 0, "Task completed"));
}

#[test]
fn loop_helpers() {
    assert_eq!(tool_operation("grep"), Some("read"));
    assert_eq!(tool_operation("execute"), Some("write"));
    assert_eq!(tool_operation("write_todos"), None);
    assert_eq!(call_path(&obj(vec![("path", Json::Str("p".into()))])), "p");
    assert_eq!(call_path(&obj(vec![("file_path", Json::Str("f".into())), ("path", Json::Str("p".into()))])), "f");
    assert_eq!(call_path(&Json::Null), "");
    assert_eq!(tool_timeout_message("grep", 120), "Tool 'grep' timed out after 120s");
    assert_eq!(config_error_exit_code(), 3);
}

#[test]
fn planner_prompt_and_steps() {
    let m = plan_messages("sys", "fix bug", &vec!["ls".into(), "grep".into()]);
    assert_eq!(m[0].content.as_deref(), Some("sys"));
    assert_eq!(
        m[1].content.as_deref(),
        Some("Given the task below, generate a step-by-step execution plan. Each step should be a concrete action. Available tools: ls, grep\n\nTask: fix bug")
    );
    assert_eq!(count_steps("1. a\n\n  \n2. b\n"), 2);
    assert_eq!(plan_text(None), "");
}

#[test]
fn subagent_runs_at_most_fifty_rounds() {
    let cfg = SubAgentConfig {
        name: "helper".into(),
        description: "d".into(),
        system_prompt: "be brief".into(),
        model: None,
        tools: None,
        skills: None,
        permissions: None,
    };
    let mut run = SubAgentRun::start(&cfg, "task");
    assert_eq!(run.conversation().len(), 2);
    for n in 0..50u32 {
        assert_eq!(run.next_round(&cfg), Ok(n));
    }
    assert_eq!(run.next_round(&cfg), Err("Sub-agent 'helper' exceeded max iterations (50)".to_string()));
    match run.take_response(response(Some("x"), vec![call("1", "ls", Json::Null)], false)) {
        SubAgentStep::ToolCalls(c) => assert_eq!(c.len(), 1),
        _ => panic!("expected tool calls"),
    }
    run.push_tool_result("1".into(), "out".into());
    match run.take_response(response(Some("final"), vec![call("2", "ls", Json::Null)], true)) {
        SubAgentStep::Finished(t) => assert_eq!(t, "final"),
        _ => panic!("expected the end"),
    }
    assert_eq!(run.conversation().len(), 5);
    assert_eq!(SubAgentRun::llm_error("boom"), "Sub-agent LLM error: boom");
}

fn summarization(keep_tokens: u32) -> SummarizationConfig {
    SummarizationConfig { enabled: true, model: None, trigger_tokens: 10, keep_tokens, trim_tokens: 4000 }
}

#[test]
fn summarizer_triggers_on_long_history() {
    let s = Summarizer::new(summarization(20000));
    let short = vec![Message::user("a".repeat(40))];
    assert!(!s.should_summarize(&short));
    let long = vec![Message::user("a".repeat(44))];
    assert!(s.should_summarize(&long));
    let mut off = summarization(20000);
    off.enabled = false;
    assert!(!Summarizer::new(off).should_summarize(&long));
}

#[test]
fn summary_keeps_system_message_and_tail() {
    let s = Summarizer::new(summarization(50));
    let mut messages = vec![
        Message::system("sys".into()),
        Message::user("first".into()),
        Message::assistant(Some("reply".into()), vec![]),
        Message::user("second".into()),
        Message::assistant(Some("last".into()), vec![]),
    ];
    let request = s.plan_summary(&messages).unwrap();
    assert_eq!(request.len(), 2);
    assert_eq!(request[0].content.as_deref(), Some("You are a summarization assistant. Produce concise, accurate summaries."));
    assert_eq!(
        request[1].content.as_deref(),
        Some("Summarize the following conversation history concisely, preserving key decisions, facts, and context needed to continue the task. Keep the summary under 4000 tokens.\n\n[user]: first\n[assistant]: reply")
    );
    let (before, after) = s.apply_summary(&mut messages, Some("S".into())).unwrap();
    assert_eq!(messages.len(), 4);
    assert_eq!(messages[0].content.as_deref(), Some("sys"));
    assert_eq!(messages[1].role, "system");
    assert_eq!(messages[1].content.as_deref(), Some("[Conversation summary]: S"));
    assert_eq!(messages[2].content.as_deref(), Some("second"));
    assert_eq!(messages[3].content.as_deref(), Some("last"));
    assert_eq!(before, (3 + 5 + 5 + 6 + 4) / 4);
    assert_eq!(after, (3 + 25 + 6 + 4) / 4);
    let mut sm = Summarizer::new(summarization(50));
    sm.record_run(before, after);
    assert_eq!((sm.runs(), sm.tokens_saved()), (1, 0));
    sm.record_run(100, 40);
    assert_eq!((sm.runs(), sm.tokens_saved()), (2, 60));
}

#[test]
fn nothing_to_summarize_in_short_history() {
    let s = Summarizer::new(summarization(20000));
    let mut messages = vec![Message::user("a".into()), Message::user("b".into())];
    assert!(s.plan_summary(&messages).is_none());
    assert!(s.apply_summary(&mut messages, Some("x".into())).is_none());
    assert_eq!(messages.len(), 2);
    let s = Summarizer::new(summarization(50));
    let mut messages = vec![Message::user("a".into()), Message::user("b".into()), Message::user("c".into())];
    s.apply_summary(&mut messages, None).unwrap();
    assert_eq!(messages.len(), 3);
    assert_eq!(
        messages[0].content.as_deref(),
        Some("[Conversation summary]: Previous context was summarized but produced no output.")
    );
}

#[test]
fn subagent_records_tool_calls_and_answers() {
    let config = SubAgentConfig {
        name: "helper".into(),
        description: "d".into(),
        system_prompt: "be useful".into(),
        model: None,
        tools: None,
        skills: None,
        permissions: None,
    };
    let mut run = SubAgentRun::start(&config, "find x");
    assert!(run.conversation()[0].tool_calls.is_none() && run.conversation()[1].tool_call_id.is_none());
    let step = run.take_response(response(Some("looking"), vec![call("c1", "grep", obj(vec![]))], false));
    assert!(matches!(step, SubAgentStep::ToolCalls(_)));
    let last = run.conversation().last().unwrap();
    assert_eq!(last.tool_calls.as_ref().map(|v| v.len()), Some(1));
    assert_eq!(last.tool_calls.as_ref().unwrap()[0].id, "c1");
    run.push_tool_result("c1".into(), "found".into());
    let last = run.conversation().last().unwrap();
    assert_eq!((last.role.as_str(), last.tool_call_id.as_deref()), ("tool", Some("c1")));
    assert!(last.tool_calls.is_none());
}

#[test]
fn tool_answers_are_tied_to_their_call() {
    let mut messages = vec![Message::user("go".into())];
    answer_tool_call(&mut messages, &call("t9", "ls", obj(vec![])), "a\nb".into());
    assert_eq!(messages.len(), 2);
    assert_eq!(messages[1].role, "tool");
    assert_eq!(messages[1].tool_call_id.as_deref(), Some("t9"));
    assert_eq!(messages[1].content.as_deref(), Some("a\nb"));
}
