//! The decisions of the agent loop. The caller performs each LLM call and tool
//! execution and reports back; this state machine counts, gates tool calls by
//! permission, and decides when and how the run ends.

use vstd::prelude::*;
use crate::json::{field_bool, field_str, get_bool, get_str, Json, JsonView};
use crate::permissions::{verdict, PermissionEvaluator};
use crate::provider::{copy_calls, opt_str, same_call, Message, ProviderResponse, ToolCall, Usage};
use crate::text::{cat, cat3, dec, fmt_u64, owned, str_eq};

verus! {

/// Limits of one run.
pub struct LoopConfig {
    pub max_iterations: u32,
    pub tool_timeout_secs: u64,
    pub run_limit_secs: u64,
    pub verbose: bool,
}

/// How a run ended, with its counters.
pub struct LoopOutcome {
    pub final_text: String,
    pub status: String,
    pub exit_code: u32,
    pub total_iterations: u32,
    pub total_tool_calls: u32,
    pub total_input_tokens: u32,
    pub total_output_tokens: u32,
    pub permission_denials: u32,
}

/// The exit code that belongs to a status: 0 for `completed`, 1 for `failed`,
/// 2 for `max_iterations_reached` and `run_limit_exceeded`.
pub open spec fn status_exit_code(status: Seq<char>) -> Option<u32> {
    if status == "completed"@ {
        Some(0)
    } else if status == "failed"@ {
        Some(1)
    } else if status == "max_iterations_reached"@ || status == "run_limit_exceeded"@ {
        Some(2)
    } else {
        None
    }
}

/// The operation a tool needs permission for: `read` for `ls`, `read_file`,
/// `glob` and `grep`; `write` for `write_file`, `edit_file` and `execute`;
/// none for any other tool.
pub open spec fn operation_of(name: Seq<char>) -> Option<Seq<char>> {
    if name == "ls"@ || name == "read_file"@ || name == "glob"@ || name == "grep"@ {
        Some("read"@)
    } else if name == "write_file"@ || name == "edit_file"@ || name == "execute"@ {
        Some("write"@)
    } else {
        None
    }
}

/// The path a tool call touches: its `file_path` argument, else its `path`
/// argument, else the empty path.
pub open spec fn path_of(args: JsonView) -> Seq<char> {
    match field_str(args, "file_path"@) {
        Some(p) => p,
        None => match field_str(args, "path"@) {
            Some(p) => p,
            None => Seq::empty(),
        },
    }
}

/// The first call of `task_done` among the calls.
pub open spec fn first_task_done(calls: Seq<ToolCall>) -> Option<ToolCall>
    decreases calls.len(),
{
    if calls.len() == 0 {
        None
    } else if calls[0].name@ == "task_done"@ {
        Some(calls[0])
    } else {
        first_task_done(calls.drop_first())
    }
}

/// The operation that `tool_name` needs permission for.
pub fn tool_operation(tool_name: &str) -> (r: Option<&'static str>)
    ensures
        match operation_of(tool_name@) {
            Some(op) => r matches Some(s) && s@ == op,
            None => r is None,
        },
{
    if str_eq(tool_name, "ls") || str_eq(tool_name, "read_file") || str_eq(tool_name, "glob")
        || str_eq(tool_name, "grep") {
        Some("read")
    } else if str_eq(tool_name, "write_file") || str_eq(tool_name, "edit_file") || str_eq(
        tool_name,
        "execute",
    ) {
        Some("write")
    } else {
        None
    }
}

/// What to do with one tool call.
pub enum ToolGate {
    /// Run the tool.
    Run,
    /// Do not run it; answer `message` instead.
    Denied { operation: String, path: String, message: String },
}

/// What follows an LLM reply.
pub enum ResponseStep {
    /// The run is over.
    Finished(LoopOutcome),
    /// Run these tool calls; `done` tells that one of them is `task_done`.
    ToolCalls { calls: Vec<ToolCall>, done: bool },
}

/// The counters of a run in progress.
pub struct LoopState {
    iteration: u32,
    total_tool_calls: u32,
    total_input_tokens: u32,
    total_output_tokens: u32,
    permission_denials: u32,
}

impl LoopState {
    /// The current iteration (zero before the first).
    pub closed spec fn iteration(&self) -> nat {
        self.iteration as nat
    }

    /// The tool calls requested so far.
    pub closed spec fn tool_calls(&self) -> nat {
        self.total_tool_calls as nat
    }

    /// The input tokens used so far.
    pub closed spec fn input_tokens(&self) -> nat {
        self.total_input_tokens as nat
    }

    /// The output tokens used so far.
    pub closed spec fn output_tokens(&self) -> nat {
        self.total_output_tokens as nat
    }

    /// The tool calls refused so far.
    pub closed spec fn denials(&self) -> nat {
        self.permission_denials as nat
    }

    /// Refused calls are among the requested ones.
    pub open spec fn wf(&self) -> bool {
        self.denials() <= self.tool_calls()
    }

    /// The outcome with these counters, status and final text.
    pub open spec fn outcome_is(
        &self,
        o: LoopOutcome,
        status: Seq<char>,
        final_text: Seq<char>,
        total_iterations: nat,
    ) -> bool {
        &&& o.status@ == status
        &&& Some(o.exit_code) == status_exit_code(status)
        &&& o.final_text@ == final_text
        &&& o.total_iterations as nat == total_iterations
        &&& o.total_tool_calls as nat == self.tool_calls()
        &&& o.total_input_tokens as nat == self.input_tokens()
        &&& o.total_output_tokens as nat == self.output_tokens()
        &&& o.permission_denials as nat == self.denials()
    }

    /// The number of the current iteration.
    pub fn current_iteration(&self) -> (r: u32)
        ensures
            r == self.iteration(),
    {
        self.iteration
    }

    /// The tool calls counted so far.
    pub fn tool_call_total(&self) -> (r: u32)
        ensures
            r == self.tool_calls(),
    {
        self.total_tool_calls
    }

    /// The input tokens counted so far.
    pub fn input_token_total(&self) -> (r: u32)
        ensures
            r == self.input_tokens(),
    {
        self.total_input_tokens
    }

    /// The output tokens counted so far.
    pub fn output_token_total(&self) -> (r: u32)
        ensures
            r == self.output_tokens(),
    {
        self.total_output_tokens
    }

    /// A run that has not started.
    pub fn new() -> (r: Self)
        ensures
            r.wf(),
            r.iteration() == 0,
            r.tool_calls() == 0,
            r.input_tokens() == 0,
            r.output_tokens() == 0,
            r.denials() == 0,
    {
        LoopState {
            iteration: 0,
            total_tool_calls: 0,
            total_input_tokens: 0,
            total_output_tokens: 0,
            permission_denials: 0,
        }
    }

    fn outcome(&self, status: &str, final_text: String, total_iterations: u32) -> (r: LoopOutcome)
        requires
            status_exit_code(status@) is Some,
        ensures
            self.outcome_is(r, status@, final_text@, total_iterations as nat),
    {
        let exit_code: u32 = if str_eq(status, "completed") {
            0
        } else if str_eq(status, "failed") {
            1
        } else {
            2
        };
        LoopOutcome {
            final_text,
            status: owned(status),
            exit_code,
            total_iterations,
            total_tool_calls: self.total_tool_calls,
            total_input_tokens: self.total_input_tokens,
            total_output_tokens: self.total_output_tokens,
            permission_denials: self.permission_denials,
        }
    }

    /// Starts the next iteration. The run ends when its time is used up
    /// (`run_limit_exceeded`) or when the iteration limit is passed
    /// (`max_iterations_reached`, counting `max_iterations` iterations).
    pub fn begin_iteration(&mut self, config: &LoopConfig, time_exhausted: bool) -> (r: Option<
        LoopOutcome,
    >)
        requires
            old(self).wf(),
            old(self).iteration() < u32::MAX,
        ensures
            final(self).wf(),
            final(self).iteration() == old(self).iteration() + 1,
            final(self).tool_calls() == old(self).tool_calls(),
            final(self).input_tokens() == old(self).input_tokens(),
            final(self).output_tokens() == old(self).output_tokens(),
            final(self).denials() == old(self).denials(),
            time_exhausted ==> (r matches Some(o) && final(self).outcome_is(
                o,
                "run_limit_exceeded"@,
                "Run limit of "@ + dec(config.run_limit_secs as nat) + "s exceeded"@,
                final(self).iteration(),
            )),
            !time_exhausted && final(self).iteration() > config.max_iterations ==> (r matches Some(
                o,
            ) && final(self).outcome_is(
                o,
                "max_iterations_reached"@,
                "Max iterations reached"@,
                config.max_iterations as nat,
            )),
            !time_exhausted && final(self).iteration() <= config.max_iterations ==> r is None,
    {
        self.iteration = self.iteration + 1;
        if time_exhausted {
            let secs = fmt_u64(config.run_limit_secs);
            let text = cat3("Run limit of ", secs.as_str(), "s exceeded");
            return Some(self.outcome("run_limit_exceeded", text, self.iteration));
        }
        if self.iteration > config.max_iterations {
            return Some(
                self.outcome(
                    "max_iterations_reached",
                    owned("Max iterations reached"),
                    config.max_iterations,
                ),
            );
        }
        None
    }

    /// The end of a run whose LLM call failed with `error`.
    pub fn llm_failed(&self, error: &str) -> (r: LoopOutcome)
        ensures
            self.outcome_is(r, "failed"@, "LLM error: "@ + error@, self.iteration()),
    {
        self.outcome("failed", cat("LLM error: ", error), self.iteration)
    }

    /// Takes the LLM's reply: counts its tokens and records it as the
    /// assistant's message. A reply without tool calls ends the run
    /// (`completed`, with the reply's text); otherwise its tool calls are to be
    /// run.
    pub fn take_response(&mut self, messages: &mut Vec<Message>, response: ProviderResponse) -> (r:
        ResponseStep)
        requires
            old(self).wf(),
            old(self).input_tokens() + response.usage.input_tokens <= u32::MAX,
            old(self).output_tokens() + response.usage.output_tokens <= u32::MAX,
        ensures
            final(self).wf(),
            final(self).iteration() == old(self).iteration(),
            final(self).tool_calls() == old(self).tool_calls(),
            final(self).denials() == old(self).denials(),
            final(self).input_tokens() == old(self).input_tokens() + response.usage.input_tokens,
            final(self).output_tokens() == old(self).output_tokens()
                + response.usage.output_tokens,
            final(messages)@.len() == old(messages)@.len() + 1,
            final(messages)@.take(old(messages)@.len() as int) == old(messages)@,
            final(messages)@.last().role@ == "assistant"@,
            final(messages)@.last().content == response.content,
            final(messages)@.last().tool_call_id is None,
            response.tool_calls@.len() == 0 ==> final(messages)@.last().tool_calls is None,
            response.tool_calls@.len() > 0 ==> final(messages)@.last().tool_calls == Some(
                response.tool_calls,
            ),
            response.tool_calls@.len() == 0 ==> (r matches ResponseStep::Finished(o)
                && final(self).outcome_is(
                o,
                "completed"@,
                match response.content {
                    Some(c) => c@,
                    None => Seq::empty(),
                },
                final(self).iteration(),
            )),
            response.tool_calls@.len() > 0 ==> (r matches ResponseStep::ToolCalls { calls, done }
                && done == response.done && calls@.len() == response.tool_calls@.len() && forall|
                i: int,
            |
                0 <= i < calls@.len() ==> same_call(#[trigger] calls@[i], response.tool_calls@[i])),
    {
        self.total_input_tokens = self.total_input_tokens + response.usage.input_tokens;
        self.total_output_tokens = self.total_output_tokens + response.usage.output_tokens;
        let ProviderResponse { content, tool_calls, usage: _, reasoning: _, done } = response;
        if tool_calls.len() == 0 {
            let final_text = match &content {
                Some(c) => c.clone(),
                None => String::new(),
            };
            messages.push(Message::assistant(content, tool_calls));
            let o = self.outcome("completed", final_text, self.iteration);
            ResponseStep::Finished(o)
        } else {
            let calls = copy_calls(&tool_calls);
            messages.push(Message::assistant(content, tool_calls));
            ResponseStep::ToolCalls { calls, done }
        }
    }

    /// Decides whether a requested tool call may run: a call of a tool that
    /// needs an operation is refused when the permission rules do not grant
    /// that operation on the call's path.
    pub fn gate_tool_call(&mut self, evaluator: &PermissionEvaluator, call: &ToolCall) -> (r:
        ToolGate)
        requires
            old(self).wf(),
            old(self).tool_calls() < u32::MAX,
        ensures
            final(self).wf(),
            final(self).iteration() == old(self).iteration(),
            final(self).tool_calls() == old(self).tool_calls() + 1,
            final(self).input_tokens() == old(self).input_tokens(),
            final(self).output_tokens() == old(self).output_tokens(),
            match operation_of(call.name@) {
                Some(op) => if verdict(evaluator.rules(), op, path_of(call.arguments@)) {
                    r is Run && final(self).denials() == old(self).denials()
                } else {
                    &&& r matches ToolGate::Denied { operation, path, message }
                    &&& operation@ == op
                    &&& path@ == path_of(call.arguments@)
                    &&& message@ == "Permission denied: "@ + op + " access to "@ + path_of(
                        call.arguments@,
                    )
                    &&& final(self).denials() == old(self).denials() + 1
                },
                None => r is Run && final(self).denials() == old(self).denials(),
            },
    {
        self.total_tool_calls = self.total_tool_calls + 1;
        match tool_operation(call.name.as_str()) {
            None => ToolGate::Run,
            Some(op) => {
                let path = call_path(&call.arguments);
                if evaluator.check(op, path) {
                    ToolGate::Run
                } else {
                    self.permission_denials = self.permission_denials + 1;
                    let mut message = cat3("Permission denied: ", op, " access to ");
                    message.append(path);
                    ToolGate::Denied { operation: owned(op), path: owned(path), message }
                }
            },
        }
    }

    /// The end of a run whose reply called `task_done`: the first such call
    /// gives the summary (default `Task completed`) and whether the task
    /// succeeded (default yes).
    pub fn task_done(&self, calls: &Vec<ToolCall>) -> (r: LoopOutcome)
        ensures
            ({
                let call = first_task_done(calls@);
                let summary = match call {
                    Some(c) => match field_str(c.arguments@, "summary"@) {
                        Some(s) => s,
                        None => "Task completed"@,
                    },
                    None => "Task completed"@,
                };
                let success = match call {
                    Some(c) => match field_bool(c.arguments@, "success"@) {
                        Some(b) => b,
                        None => true,
                    },
                    None => true,
                };
                self.outcome_is(
                    r,
                    if success { "completed"@ } else { "failed"@ },
                    summary,
                    self.iteration(),
                )
            }),
    {
        let found = find_task_done(calls);
        let (summary, success) = match found {
            Some(k) => {
                let s = match get_str(&calls[k].arguments, "summary") {
                    Some(s) => owned(s),
                    None => owned("Task completed"),
                };
                let b = match get_bool(&calls[k].arguments, "success") {
                    Some(b) => b,
                    None => true,
                };
                (s, b)
            },
            None => (owned("Task completed"), true),
        };
        if success {
            self.outcome("completed", summary, self.iteration)
        } else {
            self.outcome("failed", summary, self.iteration)
        }
    }
}

/// The path a tool call touches (see [`path_of`]).
pub fn call_path(args: &Json) -> (r: &str)
    ensures
        r@ == path_of(args@),
{
    match get_str(args, "file_path") {
        Some(p) => p,
        None => match get_str(args, "path") {
            Some(p) => p,
            None => {
                proof {
                    reveal_strlit("");
                }
                ""
            },
        },
    }
}

/// The position of the first call of `task_done`.
fn find_task_done(calls: &Vec<ToolCall>) -> (r: Option<usize>)
    ensures
        match r {
            Some(k) => k < calls@.len() && first_task_done(calls@) == Some(calls@[k as int]),
            None => first_task_done(calls@) is None,
        },
{
    let mut i: usize = 0;
    proof {
        assert(calls@.skip(0) =~= calls@);
    }
    while i < calls.len()
        invariant
            i <= calls@.len(),
            first_task_done(calls@) == first_task_done(calls@.skip(i as int)),
        decreases calls@.len() - i,
    {
        proof {
            assert(calls@.skip(i as int).drop_first() =~= calls@.skip(i + 1));
            assert(calls@.skip(i as int)[0] == calls@[i as int]);
        }
        if str_eq(calls[i].name.as_str(), "task_done") {
            return Some(i);
        }
        i += 1;
    }
    proof {
        assert(calls@.skip(i as int).len() == 0);
    }
    None
}

/// Records the answer to a tool call as the conversation's next message: a
/// `tool` message with the answer, tied to the call by its id.
pub fn answer_tool_call(messages: &mut Vec<Message>, call: &ToolCall, content: String)
    ensures
        final(messages)@.len() == old(messages)@.len() + 1,
        final(messages)@.take(old(messages)@.len() as int) == old(messages)@,
        final(messages)@.last().role@ == "tool"@,
        opt_str(final(messages)@.last().content) == Some(content@),
        final(messages)@.last().tool_calls is None,
        opt_str(final(messages)@.last().tool_call_id) == Some(call.id@),
{
    let ghost before = messages@;
    messages.push(Message::tool_result(owned(call.id.as_str()), content));
    proof {
        assert(messages@.take(before.len() as int) =~= before);
    }
}

/// The answer recorded for a tool call that ran out of time.
pub fn tool_timeout_message(tool: &str, timeout_secs: u64) -> (r: String)
    ensures
        r@ == "Tool '"@ + tool@ + "' timed out after "@ + dec(timeout_secs as nat) + "s"@,
{
    let mut r = cat3("Tool '", tool, "' timed out after ");
    let secs = fmt_u64(timeout_secs);
    r.append(secs.as_str());
    r.append("s");
    r
}

/// The exit code of a configuration error.
pub fn config_error_exit_code() -> (r: u32)
    ensures
        r == 3,
{
    3
}

/// Read-only tools need `read`, mutating tools need `write`, and every other
/// tool (such as `task_done` or an MCP tool) needs no permission.
pub proof fn lemma_tool_operations()
    ensures
        operation_of("ls"@) == Some("read"@),
        operation_of("read_file"@) == Some("read"@),
        operation_of("glob"@) == Some("read"@),
        operation_of("grep"@) == Some("read"@),
        operation_of("write_file"@) == Some("write"@),
        operation_of("edit_file"@) == Some("write"@),
        operation_of("execute"@) == Some("write"@),
        operation_of("task_done"@) is None,
{
    reveal_strlit("ls");
    reveal_strlit("read_file");
    reveal_strlit("glob");
    reveal_strlit("grep");
    reveal_strlit("write_file");
    reveal_strlit("edit_file");
    reveal_strlit("execute");
    reveal_strlit("task_done");
    assert("write_file"@.len() != "ls"@.len() && "write_file"@.len() != "read_file"@.len()
        && "write_file"@.len() != "glob"@.len() && "write_file"@.len() != "grep"@.len());
    assert("edit_file"@[0] != "read_file"@[0] && "edit_file"@.len() != "ls"@.len()
        && "edit_file"@.len() != "glob"@.len() && "edit_file"@.len() != "grep"@.len());
    assert("task_done"@[0] != "read_file"@[0] && "task_done"@[0] != "edit_file"@[0]);
    assert("task_done"@.len() != "ls"@.len() && "task_done"@.len() != "glob"@.len()
        && "task_done"@.len() != "grep"@.len() && "task_done"@.len() != "write_file"@.len()
        && "task_done"@.len() != "execute"@.len());
}

/// Every outcome's exit code matches its status.
pub proof fn lemma_outcome_exit_code(state: LoopState, o: LoopOutcome, status: Seq<char>, text: Seq<char>, n: nat)
    requires
        state.outcome_is(o, status, text, n),
    ensures
        o.exit_code == 0 <==> o.status@ == "completed"@,
        o.exit_code == 1 <==> o.status@ == "failed"@,
        o.exit_code == 2 <==> (o.status@ == "max_iterations_reached"@ || o.status@
            == "run_limit_exceeded"@),
{
    reveal_strlit("completed");
    reveal_strlit("failed");
    reveal_strlit("max_iterations_reached");
    reveal_strlit("run_limit_exceeded");
    assert("completed"@.len() != "max_iterations_reached"@.len());
    assert("completed"@.len() != "run_limit_exceeded"@.len());
    assert("failed"@.len() != "max_iterations_reached"@.len());
    assert("failed"@.len() != "run_limit_exceeded"@.len());
    assert("completed"@.len() != "failed"@.len());
}

} // verus!
