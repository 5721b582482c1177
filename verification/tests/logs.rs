use agent_runner::json::Json;
use agent_runner::run_log::{IterationLog, RunLogger, ToolCallLog};
use agent_runner::trace::{task_done_data, trace_entry, TraceSequence};

#[test]
fn run_log_records() {
    let mut log = RunLogger::new("do it", "/out", "t0".into());
    assert_eq!((log.log.status.as_str(), log.log.exit_code), ("running", 99));
    log.add_error(1, "llm_call", "boom", "t1".into());
    let mut it = IterationLog::new(1, "t0".into());
    it.tool_calls.push(ToolCallLog::denied("write_file", &Json::Null, "Permission denied: write access to x"));
    it.tool_calls.push(ToolCallLog::timed_out("grep", &Json::Null, "Tool 'grep' timed out after 1s", 1000));
    it.tool_calls.push(ToolCallLog::finished("ls", &Json::Null, "a", false, 3));
    log.add_iteration(it);
    log.finish("completed", 0, "t2".into());
    log.set_duration(42);
    assert_eq!(log.log.errors.len(), 1);
    assert_eq!(log.log.errors[0].phase, "llm_call");
    assert_eq!(log.log.iterations[0].tool_calls.len(), 3);
    assert!(log.log.iterations[0].tool_calls[1].timed_out);
    assert!(log.log.iterations[0].tool_calls[2].error.is_none());
    assert_eq!((log.log.status.as_str(), log.log.exit_code, log.log.duration_ms), ("completed", 0, 42));
}

#[test]
fn trace_entries() {
    let mut seq = TraceSequence::new();
    assert_eq!(seq.take(), 0);
    assert_eq!(seq.take(), 1);
    let e = trace_entry("task_done", task_done_data("s", true), 5, "ts");
    assert_eq!(e.get("event").and_then(|v| v.as_str()), Some("task_done"));
    assert_eq!(e.get("seq").and_then(|v| v.as_u64()), Some(5));
    assert_eq!(e.get("summary").and_then(|v| v.as_str()), Some("s"));
    let d = trace_entry("x", Json::Str("raw".into()), 0, "ts");
    assert_eq!(d.get("data").and_then(|v| v.as_str()), Some("raw"));
    let o = trace_entry("real", Json::Object(vec![("event".into(), Json::Str("fake".into()))]), 0, "ts");
    assert_eq!(o.get("event").and_then(|v| v.as_str()), Some("real"));
}
