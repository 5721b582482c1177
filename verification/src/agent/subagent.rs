//! A sub-agent run: its own conversation, at most fifty LLM rounds, ending
//! with the first answer that calls no tool or calls `task_done`.

use vstd::prelude::*;
use crate::config::SubAgentConfig;
use crate::provider::{copy_calls, opt_str, same_call, Message, ProviderResponse, ToolCall};
use crate::text::{cat, cat3, owned};

verus! {

/// The conversation and progress of a sub-agent run.
pub struct SubAgentRun {
    messages: Vec<Message>,
    rounds: u32,
}

/// What follows a sub-agent's LLM reply.
pub enum SubAgentStep {
    /// The run is over with this answer.
    Finished(String),
    /// Run these tool calls and report their results.
    ToolCalls(Vec<ToolCall>),
}

/// The most LLM rounds a sub-agent gets.
pub open spec fn max_rounds() -> nat {
    50
}

impl SubAgentRun {
    /// The conversation so far.
    pub closed spec fn messages(&self) -> Seq<Message> {
        self.messages@
    }

    /// The LLM rounds started so far.
    pub closed spec fn rounds(&self) -> nat {
        self.rounds as nat
    }

    /// A run of the sub-agent on the task `description`: its system prompt,
    /// then the task as the user's message.
    pub fn start(config: &SubAgentConfig, description: &str) -> (r: Self)
        ensures
            r.rounds() == 0,
            r.messages().len() == 2,
            r.messages()[0].role@ == "system"@,
            opt_str(r.messages()[0].content) == Some(config.system_prompt@),
            r.messages()[0].tool_calls is None && r.messages()[0].tool_call_id is None,
            r.messages()[1].role@ == "user"@,
            opt_str(r.messages()[1].content) == Some(description@),
            r.messages()[1].tool_calls is None && r.messages()[1].tool_call_id is None,
    {
        let mut messages: Vec<Message> = Vec::new();
        messages.push(Message::system(owned(config.system_prompt.as_str())));
        messages.push(Message::user(owned(description)));
        SubAgentRun { messages, rounds: 0 }
    }

    /// The conversation to send to the LLM.
    pub fn conversation(&self) -> (r: &Vec<Message>)
        ensures
            r@ == self.messages(),
    {
        &self.messages
    }

    /// Starts the next LLM round and gives its number (from 0), or the error
    /// that ends the run once all fifty rounds are used.
    pub fn next_round(&mut self, config: &SubAgentConfig) -> (r: Result<u32, String>)
        ensures
            final(self).messages() == old(self).messages(),
            old(self).rounds() < max_rounds() ==> r == Ok::<u32, String>(old(self).rounds() as u32)
                && final(self).rounds() == old(self).rounds() + 1,
            old(self).rounds() >= max_rounds() ==> (r matches Err(e) && e@ == "Sub-agent '"@
                + config.name@ + "' exceeded max iterations (50)"@) && final(self).rounds()
                == old(self).rounds(),
    {
        if self.rounds < 50 {
            let n = self.rounds;
            self.rounds = self.rounds + 1;
            Ok(n)
        } else {
            Err(cat3("Sub-agent '", config.name.as_str(), "' exceeded max iterations (50)"))
        }
    }

    /// The error that ends the run when an LLM call fails.
    pub fn llm_error(error: &str) -> (r: String)
        ensures
            r@ == "Sub-agent LLM error: "@ + error@,
    {
        cat("Sub-agent LLM error: ", error)
    }

    /// Records the reply as the assistant's message; the run ends with the
    /// reply's text (empty when none) when it calls no tool or calls
    /// `task_done`.
    pub fn take_response(&mut self, response: ProviderResponse) -> (r: SubAgentStep)
        ensures
            final(self).rounds() == old(self).rounds(),
            final(self).messages().len() == old(self).messages().len() + 1,
            final(self).messages().take(old(self).messages().len() as int) == old(self).messages(),
            final(self).messages().last().role@ == "assistant"@,
            final(self).messages().last().content == response.content,
            final(self).messages().last().tool_call_id is None,
            response.tool_calls@.len() == 0 ==> final(self).messages().last().tool_calls is None,
            response.tool_calls@.len() > 0 ==> final(self).messages().last().tool_calls == Some(
                response.tool_calls,
            ),
            response.done || response.tool_calls@.len() == 0 ==> (r matches SubAgentStep::Finished(
                t,
            ) && t@ == match response.content {
                Some(c) => c@,
                None => Seq::empty(),
            }),
            !(response.done || response.tool_calls@.len() == 0) ==> (r matches SubAgentStep::ToolCalls(
                calls,
            ) && calls@.len() == response.tool_calls@.len() && forall|i: int|
                0 <= i < calls@.len() ==> same_call(#[trigger] calls@[i], response.tool_calls@[i])),
    {
        let ProviderResponse { content, tool_calls, usage: _, reasoning: _, done } = response;
        let ghost old_messages = self.messages@;
        if done || tool_calls.len() == 0 {
            let text = match &content {
                Some(c) => owned(c.as_str()),
                None => String::new(),
            };
            self.messages.push(Message::assistant(content, tool_calls));
            proof {
                assert(self.messages@.take(old_messages.len() as int) =~= old_messages);
            }
            SubAgentStep::Finished(text)
        } else {
            let calls = copy_calls(&tool_calls);
            self.messages.push(Message::assistant(content, tool_calls));
            proof {
                assert(self.messages@.take(old_messages.len() as int) =~= old_messages);
            }
            SubAgentStep::ToolCalls(calls)
        }
    }

    /// Records a tool's answer to the call `tool_call_id`.
    pub fn push_tool_result(&mut self, tool_call_id: String, content: String)
        ensures
            final(self).rounds() == old(self).rounds(),
            final(self).messages().len() == old(self).messages().len() + 1,
            final(self).messages().take(old(self).messages().len() as int) == old(self).messages(),
            final(self).messages().last().role@ == "tool"@,
            opt_str(final(self).messages().last().content) == Some(content@),
            final(self).messages().last().tool_calls is None,
            opt_str(final(self).messages().last().tool_call_id) == Some(tool_call_id@),
    {
        let ghost old_messages = self.messages@;
        self.messages.push(Message::tool_result(tool_call_id, content));
        proof {
            assert(self.messages@.take(old_messages.len() as int) =~= old_messages);
        }
    }
}

} // verus!
