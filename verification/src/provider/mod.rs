//! The conversation model exchanged with LLM providers: messages, tool calls,
//! tool definitions and completions.

use vstd::prelude::*;
use crate::json::{deep_copy, entries_view, entry, field, lookup, opt_json, values_view, Json, JsonView};
use crate::text::dec;
use crate::text::{cat, owned};

pub mod anthropic;
pub mod openai;

verus! {

/// A tool invocation requested by the model.
pub struct ToolCall {
    pub id: String,
    pub name: String,
    pub arguments: Json,
}

/// Two tool calls carry the same id, name and arguments.
pub open spec fn same_call(a: ToolCall, b: ToolCall) -> bool {
    a.id@ == b.id@ && a.name@ == b.name@ && a.arguments@ == b.arguments@
}

impl Clone for ToolCall {
    fn clone(&self) -> (r: Self)
        ensures
            same_call(r, *self),
    {
        ToolCall { id: self.id.clone(), name: self.name.clone(), arguments: deep_copy(&self.arguments) }
    }
}

/// Copies of a list of tool calls.
pub fn copy_calls(calls: &Vec<ToolCall>) -> (r: Vec<ToolCall>)
    ensures
        r@.len() == calls@.len(),
        forall|i: int| 0 <= i < calls@.len() ==> same_call(#[trigger] r@[i], calls@[i]),
{
    let mut r: Vec<ToolCall> = Vec::new();
    let mut i: usize = 0;
    while i < calls.len()
        invariant
            i <= calls@.len(),
            r@.len() == i,
            forall|k: int| 0 <= k < i ==> same_call(#[trigger] r@[k], calls@[k]),
        decreases calls@.len() - i,
    {
        r.push(calls[i].clone());
        i += 1;
    }
    r
}

/// One message of a conversation.
pub struct Message {
    pub role: String,
    pub content: Option<String>,
    pub tool_calls: Option<Vec<ToolCall>>,
    pub tool_call_id: Option<String>,
}

/// The view of an optional string.
pub open spec fn opt_str(o: Option<String>) -> Option<Seq<char>> {
    match o {
        Some(s) => Some(s@),
        None => None,
    }
}

impl Message {
    /// A system message.
    pub fn system(content: String) -> (m: Message)
        ensures
            m.role@ == "system"@,
            opt_str(m.content) == Some(content@),
            m.tool_calls is None,
            m.tool_call_id is None,
    {
        Message { role: owned("system"), content: Some(content), tool_calls: None, tool_call_id: None }
    }

    /// A user message.
    pub fn user(content: String) -> (m: Message)
        ensures
            m.role@ == "user"@,
            opt_str(m.content) == Some(content@),
            m.tool_calls is None,
            m.tool_call_id is None,
    {
        Message { role: owned("user"), content: Some(content), tool_calls: None, tool_call_id: None }
    }

    /// An assistant message; an empty list of tool calls is recorded as none.
    pub fn assistant(content: Option<String>, tool_calls: Vec<ToolCall>) -> (m: Message)
        ensures
            m.role@ == "assistant"@,
            m.content == content,
            tool_calls@.len() == 0 ==> m.tool_calls is None,
            tool_calls@.len() > 0 ==> m.tool_calls == Some(tool_calls),
            m.tool_call_id is None,
    {
        let calls = if tool_calls.len() == 0 { None } else { Some(tool_calls) };
        Message { role: owned("assistant"), content, tool_calls: calls, tool_call_id: None }
    }

    /// The result of the tool call `tool_call_id`.
    pub fn tool_result(tool_call_id: String, content: String) -> (m: Message)
        ensures
            m.role@ == "tool"@,
            opt_str(m.content) == Some(content@),
            m.tool_calls is None,
            opt_str(m.tool_call_id) == Some(tool_call_id@),
    {
        Message {
            role: owned("tool"),
            content: Some(content),
            tool_calls: None,
            tool_call_id: Some(tool_call_id),
        }
    }
}

/// A tool as it is offered to the model.
pub struct ToolDefinition {
    pub name: String,
    pub description: String,
    pub parameters: Json,
}

/// Token usage of one completion.
pub struct Usage {
    pub input_tokens: u32,
    pub output_tokens: u32,
}

/// What a provider answered.
pub struct ProviderResponse {
    pub content: Option<String>,
    pub tool_calls: Vec<ToolCall>,
    pub usage: Usage,
    pub reasoning: Option<String>,
    pub done: bool,
}

/// Why a completion failed.
pub enum ProviderError {
    Http(String),
    RateLimited,
    Timeout,
    Api(String),
}

/// The text of a [`ProviderError`].
pub open spec fn provider_error_text(e: ProviderError) -> Seq<char> {
    match e {
        ProviderError::Http(m) => "HTTP error: "@ + m@,
        ProviderError::RateLimited => "Rate limited"@,
        ProviderError::Timeout => "Request timed out"@,
        ProviderError::Api(m) => "API error: "@ + m@,
    }
}

impl ProviderError {
    /// The error's message, as it is displayed.
    pub fn message(&self) -> (r: String)
        ensures
            r@ == provider_error_text(*self),
    {
        match self {
            ProviderError::Http(m) => cat("HTTP error: ", m.as_str()),
            ProviderError::RateLimited => owned("Rate limited"),
            ProviderError::Timeout => owned("Request timed out"),
            ProviderError::Api(m) => cat("API error: ", m.as_str()),
        }
    }
}

/// The error for an HTTP response that did not succeed (`status_line` is
/// the status as it displays, such as `404 Not Found`): 429 is a rate limit,
/// 408 a timeout, any other status an API error with the response's text.
pub fn status_error(status: u16, status_line: &str, body: &str) -> (r: ProviderError)
    requires
        !(200 <= status <= 299),
    ensures
        status == 429 ==> r == ProviderError::RateLimited,
        status == 408 ==> r == ProviderError::Timeout,
        status != 429 && status != 408 ==> (r matches ProviderError::Api(m) && m@ == status_line@
            + ": "@ + body@),
{
    if status == 429 {
        ProviderError::RateLimited
    } else if status == 408 {
        ProviderError::Timeout
    } else {
        let mut m = cat(status_line, ": ");
        m.append(body);
        ProviderError::Api(m)
    }
}

/// The body of a completion request: the model, the turns, the token limit
/// and the temperature, then the system prompt where there is one and the
/// tools where there are any.
pub open spec fn body_view(
    model: Seq<char>,
    max_tokens: u32,
    temperature: JsonView,
    system: Option<JsonView>,
    messages: Seq<JsonView>,
    tools: Seq<JsonView>,
) -> JsonView {
    let head = seq![
        ("model"@, JsonView::Str(model)),
        ("messages"@, JsonView::Array(messages)),
        ("max_tokens"@, JsonView::Number(dec(max_tokens as nat))),
        ("temperature"@, temperature),
    ];
    let with_system = match system {
        Some(sv) => head.push(("system"@, sv)),
        None => head,
    };
    JsonView::Object(
        if tools.len() > 0 {
            with_system.push(("tools"@, JsonView::Array(tools)))
        } else {
            with_system
        },
    )
}

/// Builds the body of a completion request (`temperature` is the number as
/// it is to be written).
pub fn request_body(
    model: &str,
    max_tokens: u32,
    temperature: Json,
    system: Option<Json>,
    messages: Vec<Json>,
    tools: Vec<Json>,
) -> (r: Json)
    ensures
        r@ == body_view(
            model@,
            max_tokens,
            temperature@,
            opt_json(system),
            values_view(messages@),
            values_view(tools@),
        ),
{
    let ghost tv = temperature@;
    let ghost sv = opt_json(system);
    let ghost mv = values_view(messages@);
    let ghost tools_v = values_view(tools@);
    let mut e: Vec<(String, Json)> = Vec::new();
    e.push(entry("model", Json::string(model)));
    e.push(entry("messages", Json::array(messages)));
    e.push(entry("max_tokens", Json::unsigned(max_tokens as u64)));
    e.push(entry("temperature", temperature));
    proof {
        assert(entries_view(e@) =~= seq![
            ("model"@, JsonView::Str(model@)),
            ("messages"@, JsonView::Array(mv)),
            ("max_tokens"@, JsonView::Number(dec(max_tokens as nat))),
            ("temperature"@, tv),
        ]);
    }
    match system {
        Some(j) => {
            let ghost before = entries_view(e@);
            let ghost jv0 = j@;
            e.push(entry("system", j));
            proof {
                assert(entries_view(e@) =~= before.push(("system"@, jv0)));
            }
        },
        None => {},
    }
    if tools.len() > 0 {
        let ghost before = entries_view(e@);
        e.push(entry("tools", Json::array(tools)));
        proof {
            assert(entries_view(e@) =~= before.push(("tools"@, JsonView::Array(tools_v))));
        }
    }
    let r = Json::object(e);
    proof {
        assert(r@ =~= body_view(model@, max_tokens, tv, sv, mv, tools_v));
    }
    r
}

/// A completion request carries the model, the conversation, the token
/// limit and the temperature it was given; the system prompt exactly when
/// one is given; and the tools exactly when there are any.
pub proof fn lemma_request_body_fields(
    model: Seq<char>,
    max_tokens: u32,
    temperature: JsonView,
    system: Option<JsonView>,
    messages: Seq<JsonView>,
    tools: Seq<JsonView>,
)
    ensures
        ({
            let b = body_view(model, max_tokens, temperature, system, messages, tools);
            &&& field(b, "model"@) == Some(JsonView::Str(model))
            &&& field(b, "messages"@) == Some(JsonView::Array(messages))
            &&& field(b, "max_tokens"@) == Some(JsonView::Number(dec(max_tokens as nat)))
            &&& field(b, "temperature"@) == Some(temperature)
            &&& field(b, "system"@) == system
            &&& field(b, "tools"@) == (if tools.len() > 0 {
                Some(JsonView::Array(tools))
            } else {
                None
            })
        }),
{
    reveal_strlit("model");
    reveal_strlit("messages");
    reveal_strlit("max_tokens");
    reveal_strlit("temperature");
    reveal_strlit("system");
    reveal_strlit("tools");
    reveal_with_fuel(lookup, 7);
    assert("model"@.len() != "messages"@.len());
    assert("model"@.len() != "max_tokens"@.len());
    assert("model"@.len() != "temperature"@.len());
    assert("model"@.len() != "system"@.len());
    assert("model"@[0] != "tools"@[0]);
    assert("messages"@.len() != "max_tokens"@.len());
    assert("messages"@.len() != "temperature"@.len());
    assert("messages"@.len() != "system"@.len());
    assert("messages"@.len() != "tools"@.len());
    assert("max_tokens"@.len() != "temperature"@.len());
    assert("max_tokens"@.len() != "system"@.len());
    assert("max_tokens"@.len() != "tools"@.len());
    assert("temperature"@.len() != "system"@.len());
    assert("temperature"@.len() != "tools"@.len());
    assert("system"@.len() != "tools"@.len());
}

} // verus!
