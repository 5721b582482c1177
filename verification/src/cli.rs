//! The runner's command-line options.

use vstd::prelude::*;
use crate::agent::agent_loop::LoopConfig;
use crate::config::AgentConfig;
use crate::text::owned;

verus! {

/// The options the runner is started with.
pub struct Cli {
    /// The agent folder: its configuration, instructions and skills.
    pub agent_dir: String,
    /// The task to carry out.
    pub prompt: String,
    /// Only write a plan, do not carry it out.
    pub plan_only: bool,
    /// The most model turns the run may take.
    pub max_iterations: u32,
    /// Where the report, transcript and logs go.
    pub output_dir: String,
    /// The directory the tools work in.
    pub working_dir: String,
    /// The time limit of each tool call, in seconds.
    pub tool_timeout: u64,
    /// The time limit of the whole run, in seconds.
    pub run_limit: u64,
    /// Where to mail the result, if anywhere.
    pub mail_to: Option<String>,
    /// Print progress on standard error.
    pub verbose: bool,
    /// Run commands in a sandbox.
    pub sandbox: bool,
}

impl Cli {
    /// The options for an agent folder and a prompt, every other option at
    /// its default.
    pub fn with_defaults(agent_dir: String, prompt: String) -> (r: Cli)
        ensures
            r.agent_dir@ == agent_dir@,
            r.prompt@ == prompt@,
            !r.plan_only,
            r.max_iterations == 50,
            r.output_dir@ == "./agent-output"@,
            r.working_dir@ == "."@,
            r.tool_timeout == 120,
            r.run_limit == 3600,
            r.mail_to.is_none(),
            !r.verbose,
            !r.sandbox,
    {
        Cli {
            agent_dir,
            prompt,
            plan_only: false,
            max_iterations: 50,
            output_dir: owned("./agent-output"),
            working_dir: owned("."),
            tool_timeout: 120,
            run_limit: 3600,
            mail_to: None,
            verbose: false,
            sandbox: false,
        }
    }

    /// Whether a plan is made before the run: when only a plan is asked
    /// for, or the agent's configuration requires one.
    pub fn wants_plan(&self, agent: &AgentConfig) -> (r: bool)
        ensures
            r == (self.plan_only || agent.plan_required),
    {
        self.plan_only || agent.plan_required
    }

    /// The limits of the agent loop set by these options.
    pub fn loop_config(&self) -> (r: LoopConfig)
        ensures
            r.max_iterations == self.max_iterations,
            r.tool_timeout_secs == self.tool_timeout,
            r.run_limit_secs == self.run_limit,
            r.verbose == self.verbose,
    {
        LoopConfig {
            max_iterations: self.max_iterations,
            tool_timeout_secs: self.tool_timeout,
            run_limit_secs: self.run_limit,
            verbose: self.verbose,
        }
    }
}

} // verus!
