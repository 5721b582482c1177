# agent-runner

A non-interactive agent runner: given an agent folder (`AGENTS.md`,
`agent-runner.json`, `skills/`) and a task, it plans, calls an LLM, runs the
tools the model asks for under filesystem permissions, summarizes long
conversations, and writes a report, a run log, a transcript and a trace.

## Layout

- `src/` — the library, verified with Verus. The decisions of a run live
  here with their contracts; the caller performs the I/O they describe:
  - `agent/` — the agent loop as a state machine (`LoopState`: when a run
    stops, its status and exit code, which tool calls are denied), plan
    requests, sub-agent runs.
  - `permissions.rs` — the permission rules and the laws they obey.
  - `summarization.rs` — when and how older messages are replaced by a summary.
  - `provider/` — the Anthropic and OpenAI wire formats: request bodies,
    message conversion, reply parsing, HTTP status errors.
  - `mcp/` — MCP framing, header reading, replies, and tool routing.
  - `tools/` — what each tool answers, the tool definitions offered to the
    model, and the tool registry.
  - `config.rs`, `env_file.rs`, `agent_dir.rs`, `cli.rs`, `skills.rs` —
    settings, defaults and the agent folder.
  - `run_log.rs`, `trace.rs`, `report.rs` — the content of the logs.
  - `json.rs`, `text.rs` — JSON values and text utilities with their
    specifications.
- `app/` — the program around the library: command line, HTTP, processes,
  files, timers, e-mail, and the loop that performs what the library decides.
- `tests/` — tests of the library on concrete values.

## Exit codes

| Code | Meaning |
|------|---------|
| `0` | Task completed |
| `1` | Task failed |
| `2` | Max iterations or run limit exceeded |
| `3` | Configuration error |
