//! The run log (`run.json`): per-iteration LLM timings and tool calls, and
//! the errors met during a run. Timestamps are supplied by the caller.

use vstd::prelude::*;
use crate::json::{deep_copy, Json};
use crate::text::owned;

verus! {

/// One tool call as logged.
pub struct ToolCallLog {
    pub tool: String,
    pub arguments: Json,
    pub result: String,
    pub tat_ms: u64,
    pub is_error: bool,
    pub error: Option<String>,
    pub permission_denied: Option<String>,
    pub timed_out: bool,
}

/// One iteration as logged.
pub struct IterationLog {
    pub iteration: u32,
    pub started_at: String,
    pub llm_tat_ms: u64,
    pub llm_input_tokens: u32,
    pub llm_output_tokens: u32,
    pub llm_error: Option<String>,
    pub tool_calls: Vec<ToolCallLog>,
}

/// An error met during the run.
pub struct ErrorEntry {
    pub iteration: u32,
    pub phase: String,
    pub message: String,
    pub timestamp: String,
}

/// The whole run log.
pub struct RunLog {
    pub status: String,
    pub exit_code: u32,
    pub prompt: String,
    pub started_at: String,
    pub finished_at: String,
    pub duration_ms: u64,
    pub iterations: Vec<IterationLog>,
    pub errors: Vec<ErrorEntry>,
}

impl ToolCallLog {
    /// A call refused for lack of permission.
    pub fn denied(tool: &str, arguments: &Json, message: &str) -> (r: Self)
        ensures
            r.tool@ == tool@,
            r.arguments@ == arguments@,
            r.result@ == message@,
            r.tat_ms == 0,
            r.is_error,
            r.error is None,
            r.permission_denied matches Some(m) && m@ == message@,
            !r.timed_out,
    {
        ToolCallLog {
            tool: owned(tool),
            arguments: deep_copy(arguments),
            result: owned(message),
            tat_ms: 0,
            is_error: true,
            error: None,
            permission_denied: Some(owned(message)),
            timed_out: false,
        }
    }

    /// A call that ran out of time after `tat_ms` milliseconds.
    pub fn timed_out(tool: &str, arguments: &Json, message: &str, tat_ms: u64) -> (r: Self)
        ensures
            r.tool@ == tool@,
            r.arguments@ == arguments@,
            r.result@ == message@,
            r.tat_ms == tat_ms,
            r.is_error,
            r.error matches Some(m) && m@ == message@,
            r.permission_denied is None,
            r.timed_out,
    {
        ToolCallLog {
            tool: owned(tool),
            arguments: deep_copy(arguments),
            result: owned(message),
            tat_ms,
            is_error: true,
            error: Some(owned(message)),
            permission_denied: None,
            timed_out: true,
        }
    }

    /// A call that ran and answered `output`; an erroneous answer is also its error.
    pub fn finished(tool: &str, arguments: &Json, output: &str, is_error: bool, tat_ms: u64) -> (r:
        Self)
        ensures
            r.tool@ == tool@,
            r.arguments@ == arguments@,
            r.result@ == output@,
            r.tat_ms == tat_ms,
            r.is_error == is_error,
            is_error ==> (r.error matches Some(m) && m@ == output@),
            !is_error ==> r.error is None,
            r.permission_denied is None,
            !r.timed_out,
    {
        ToolCallLog {
            tool: owned(tool),
            arguments: deep_copy(arguments),
            result: owned(output),
            tat_ms,
            is_error,
            error: if is_error { Some(owned(output)) } else { None },
            permission_denied: None,
            timed_out: false,
        }
    }
}

impl IterationLog {
    /// The log of iteration `iteration`, started at `started_at`, before the
    /// LLM answers.
    pub fn new(iteration: u32, started_at: String) -> (r: Self)
        ensures
            r.iteration == iteration,
            r.started_at == started_at,
            r.llm_tat_ms == 0,
            r.llm_input_tokens == 0,
            r.llm_output_tokens == 0,
            r.llm_error is None,
            r.tool_calls@.len() == 0,
    {
        IterationLog {
            iteration,
            started_at,
            llm_tat_ms: 0,
            llm_input_tokens: 0,
            llm_output_tokens: 0,
            llm_error: None,
            tool_calls: Vec::new(),
        }
    }
}

/// Collects the run log.
pub struct RunLogger {
    pub log: RunLog,
    pub output_dir: String,
}

impl RunLogger {
    /// The log of a run of `prompt` started at `started_at`: status `running`
    /// and exit code 99 until it finishes.
    pub fn new(prompt: &str, output_dir: &str, started_at: String) -> (r: Self)
        ensures
            r.log.status@ == "running"@,
            r.log.exit_code == 99,
            r.log.prompt@ == prompt@,
            r.log.started_at == started_at,
            r.log.finished_at@.len() == 0,
            r.log.duration_ms == 0,
            r.log.iterations@.len() == 0,
            r.log.errors@.len() == 0,
            r.output_dir@ == output_dir@,
    {
        RunLogger {
            log: RunLog {
                status: owned("running"),
                exit_code: 99,
                prompt: owned(prompt),
                started_at,
                finished_at: String::new(),
                duration_ms: 0,
                iterations: Vec::new(),
                errors: Vec::new(),
            },
            output_dir: owned(output_dir),
        }
    }

    /// Appends an iteration.
    pub fn add_iteration(&mut self, iter_log: IterationLog)
        ensures
            final(self).log.iterations@ == old(self).log.iterations@.push(iter_log),
            final(self).log.errors == old(self).log.errors,
            final(self).log.status == old(self).log.status,
            final(self).log.exit_code == old(self).log.exit_code,
    {
        self.log.iterations.push(iter_log);
    }

    /// Appends an error met in `phase` of iteration `iteration`.
    pub fn add_error(&mut self, iteration: u32, phase: &str, message: &str, timestamp: String)
        ensures
            final(self).log.errors@.len() == old(self).log.errors@.len() + 1,
            final(self).log.errors@.take(old(self).log.errors@.len() as int)
                == old(self).log.errors@,
            final(self).log.errors@.last().iteration == iteration,
            final(self).log.errors@.last().phase@ == phase@,
            final(self).log.errors@.last().message@ == message@,
            final(self).log.errors@.last().timestamp == timestamp,
            final(self).log.iterations == old(self).log.iterations,
    {
        let ghost before = self.log.errors@;
        self.log.errors.push(
            ErrorEntry { iteration, phase: owned(phase), message: owned(message), timestamp },
        );
        proof {
            assert(self.log.errors@.take(before.len() as int) =~= before);
        }
    }

    /// Records the end of the run.
    pub fn finish(&mut self, status: &str, exit_code: u32, finished_at: String)
        ensures
            final(self).log.status@ == status@,
            final(self).log.exit_code == exit_code,
            final(self).log.finished_at == finished_at,
            final(self).log.iterations == old(self).log.iterations,
            final(self).log.errors == old(self).log.errors,
            final(self).log.duration_ms == old(self).log.duration_ms,
    {
        self.log.status = owned(status);
        self.log.exit_code = exit_code;
        self.log.finished_at = finished_at;
    }

    /// Records the run's duration.
    pub fn set_duration(&mut self, ms: u64)
        ensures
            final(self).log.duration_ms == ms,
            final(self).log.status == old(self).log.status,
            final(self).log.exit_code == old(self).log.exit_code,
            final(self).log.iterations == old(self).log.iterations,
            final(self).log.errors == old(self).log.errors,
    {
        self.log.duration_ms = ms;
    }
}

} // verus!
