//! The OpenAI chat-completions API: how a conversation and tools are written
//! for it, and how its reply is read. The HTTP exchange, and the JSON text of
//! tool-call arguments, are the caller's.

use vstd::prelude::*;
use crate::json::{deep_copy, entry, field, lookup, str_of, u64_of, values_view, Json, JsonView};
use crate::provider::anthropic::{call_views, s, usage_count};
use crate::provider::{opt_str, Message, ProviderResponse, ToolCall, ToolDefinition, Usage};
use crate::text::{owned, str_eq, views};

verus! {

/// A tool call as the API takes it, with its arguments as JSON text.
pub open spec fn call_entry(tc: ToolCall, arguments_text: Seq<char>) -> JsonView {
    JsonView::Object(
        seq![
            ("id"@, s(tc.id@)),
            ("type"@, s("function"@)),
            (
                "function"@,
                JsonView::Object(seq![("name"@, s(tc.name@)), ("arguments"@, s(arguments_text))]),
            ),
        ],
    )
}

/// A message as the API takes it: role and content (null when absent), its
/// tool calls when it has them, the id of the call it answers when it has one.
pub open spec fn message_entry(m: Message, arguments_texts: Seq<Seq<char>>) -> JsonView {
    let base = seq![
        ("role"@, s(m.role@)),
        ("content"@, match m.content {
            Some(c) => s(c@),
            None => JsonView::Null,
        }),
    ];
    let with_calls = match m.tool_calls {
        Some(v) => base.push(
            (
                "tool_calls"@,
                JsonView::Array(Seq::new(v@.len(), |i: int| call_entry(v@[i], arguments_texts[i]))),
            ),
        ),
        None => base,
    };
    JsonView::Object(
        match m.tool_call_id {
            Some(id) => with_calls.push(("tool_call_id"@, s(id@))),
            None => with_calls,
        },
    )
}

/// Writes one message; `arguments_texts` holds the JSON text of the arguments
/// of each of its tool calls.
pub fn convert_message(m: &Message, arguments_texts: &Vec<String>) -> (r: Json)
    requires
        m.tool_calls matches Some(v) ==> arguments_texts@.len() == v@.len(),
    ensures
        r@ == message_entry(*m, views(arguments_texts@)),
{
    let mut e: Vec<(String, Json)> = Vec::new();
    e.push(entry("role", Json::string(m.role.as_str())));
    e.push(entry("content", match &m.content {
        Some(c) => Json::string(c.as_str()),
        None => Json::Null,
    }));
    let ghost base = crate::json::entries_view(e@);
    match &m.tool_calls {
        Some(calls) => {
            let mut items: Vec<Json> = Vec::new();
            let mut i: usize = 0;
            while i < calls.len()
                invariant
                    i <= calls@.len(),
                    arguments_texts@.len() == calls@.len(),
                    values_view(items@) == Seq::new(i as nat, |k: int| call_entry(calls@[k], views(arguments_texts@)[k])),
                decreases calls@.len() - i,
            {
                let tc = &calls[i];
                let mut f: Vec<(String, Json)> = Vec::new();
                f.push(entry("name", Json::string(tc.name.as_str())));
                f.push(entry("arguments", Json::string(arguments_texts[i].as_str())));
                let fj = Json::object(f);
                let mut c: Vec<(String, Json)> = Vec::new();
                c.push(entry("id", Json::string(tc.id.as_str())));
                c.push(entry("type", Json::string("function")));
                c.push(entry("function", fj));
                let cj = Json::object(c);
                proof {
                    assert(fj@->Object_0 =~= seq![("name"@, s(tc.name@)), ("arguments"@, s(views(arguments_texts@)[i as int]))]);
                    assert(cj@->Object_0 =~= call_entry(*tc, views(arguments_texts@)[i as int])->Object_0);
                }
                let ghost cv = cj@;
                let ghost before = items@;
                items.push(cj);
                proof {
                    assert(values_view(items@) =~= values_view(before).push(cv));
                    assert(values_view(items@) =~= Seq::new((i + 1) as nat, |k: int| call_entry(calls@[k], views(arguments_texts@)[k])));
                }
                i += 1;
            }
            e.push(entry("tool_calls", Json::array(items)));
        },
        None => {},
    }
    let ghost with_calls = crate::json::entries_view(e@);
    match &m.tool_call_id {
        Some(id) => e.push(entry("tool_call_id", Json::string(id.as_str()))),
        None => {},
    }
    let r = Json::object(e);
    proof {
        assert(r@->Object_0 =~= message_entry(*m, views(arguments_texts@))->Object_0);
    }
    r
}

/// A tool as the API takes it.
pub open spec fn tool_entry(t: ToolDefinition) -> JsonView {
    JsonView::Object(
        seq![
            ("type"@, s("function"@)),
            (
                "function"@,
                JsonView::Object(
                    seq![("name"@, s(t.name@)), ("description"@, s(t.description@)), ("parameters"@, t.parameters@)],
                ),
            ),
        ],
    )
}

/// The tools, as the API takes them.
pub fn convert_tools(tools: &Vec<ToolDefinition>) -> (r: Vec<Json>)
    ensures
        values_view(r@) == Seq::new(tools@.len(), |i: int| tool_entry(tools@[i])),
{
    let mut r: Vec<Json> = Vec::new();
    let mut i: usize = 0;
    while i < tools.len()
        invariant
            i <= tools@.len(),
            values_view(r@) == Seq::new(i as nat, |k: int| tool_entry(tools@[k])),
        decreases tools@.len() - i,
    {
        let t = &tools[i];
        let mut f: Vec<(String, Json)> = Vec::new();
        f.push(entry("name", Json::string(t.name.as_str())));
        f.push(entry("description", Json::string(t.description.as_str())));
        f.push(entry("parameters", deep_copy(&t.parameters)));
        let fj = Json::object(f);
        let mut e: Vec<(String, Json)> = Vec::new();
        e.push(entry("type", Json::string("function")));
        e.push(entry("function", fj));
        let j = Json::object(e);
        proof {
            assert(fj@->Object_0 =~= seq![("name"@, s(t.name@)), ("description"@, s(t.description@)), ("parameters"@, t.parameters@)]);
            assert(j@->Object_0 =~= tool_entry(*t)->Object_0);
        }
        let ghost jv0 = j@;
        let ghost before = r@;
        r.push(j);
        proof {
            assert(values_view(r@) =~= values_view(before).push(jv0));
            assert(values_view(r@) =~= Seq::new((i + 1) as nat, |k: int| tool_entry(tools@[k])));
        }
        i += 1;
    }
    r
}

/// The message of the reply's first choice.
pub open spec fn reply_message(resp: JsonView) -> Option<JsonView> {
    match field(resp, "choices"@) {
        Some(JsonView::Array(a)) => if a.len() > 0 {
            field(a[0], "message"@)
        } else {
            None
        },
        _ => None,
    }
}

/// The tool calls listed in the reply's message.
pub open spec fn reply_calls(resp: JsonView) -> Seq<JsonView> {
    match reply_message(resp) {
        Some(m) => match field(m, "tool_calls"@) {
            Some(JsonView::Array(c)) => c,
            _ => Seq::empty(),
        },
        None => Seq::empty(),
    }
}

/// A string member of a member (`v[a][b].as_str()`).
pub open spec fn nested_str(v: JsonView, a: Seq<char>, b: Seq<char>) -> Option<Seq<char>> {
    match field(v, a) {
        Some(x) => str_of(field(x, b)),
        None => None,
    }
}

/// The JSON text of a listed call's arguments (`{}` when missing).
pub open spec fn arguments_text(call: JsonView) -> Seq<char> {
    match nested_str(call, "function"@, "arguments"@) {
        Some(t) => t,
        None => "{}"@,
    }
}

fn message_of(resp: &Json) -> (r: Option<&Json>)
    ensures
        match r {
            Some(m) => reply_message(resp@) == Some(m@),
            None => reply_message(resp@) is None,
        },
{
    match resp.get("choices") {
        Some(c) => match c.as_array() {
            Some(a) => if a.len() > 0 {
                a[0].get("message")
            } else {
                None
            },
            None => None,
        },
        None => None,
    }
}

fn calls_of(resp: &Json) -> (r: Option<&Vec<Json>>)
    ensures
        match r {
            Some(v) => values_view(v@) == reply_calls(resp@),
            None => reply_calls(resp@) == Seq::<JsonView>::empty(),
        },
{
    match message_of(resp) {
        Some(m) => match m.get("tool_calls") {
            Some(t) => t.as_array(),
            None => None,
        },
        None => None,
    }
}

fn nested_text(v: &Json, a: &str, b: &str) -> (r: Option<String>)
    ensures
        match r {
            Some(t) => nested_str(v@, a@, b@) == Some(t@),
            None => nested_str(v@, a@, b@) is None,
        },
{
    match v.get(a) {
        Some(x) => match x.get(b) {
            Some(y) => match y.as_str() {
                Some(t) => Some(owned(t)),
                None => None,
            },
            None => None,
        },
        None => None,
    }
}

/// The JSON texts of the arguments of the reply's tool calls, in order; the
/// caller parses each (an unparsable text stands for `{}`).
pub fn arguments_texts(resp: &Json) -> (r: Vec<String>)
    ensures
        views(r@) == Seq::new(reply_calls(resp@).len(), |i: int| arguments_text(reply_calls(resp@)[i])),
{
    let mut r: Vec<String> = Vec::new();
    match calls_of(resp) {
        Some(calls) => {
            let mut i: usize = 0;
            while i < calls.len()
                invariant
                    i <= calls@.len(),
                    views(r@) == Seq::new(i as nat, |k: int| arguments_text(values_view(calls@)[k])),
                decreases calls@.len() - i,
            {
                let t = match nested_text(&calls[i], "function", "arguments") {
                    Some(t) => t,
                    None => owned("{}"),
                };
                let ghost before = r@;
                let ghost tv = t@;
                r.push(t);
                proof {
                    assert(views(r@) =~= views(before).push(tv));
                    assert(views(r@) =~= Seq::new((i + 1) as nat, |k: int| arguments_text(values_view(calls@)[k])));
                }
                i += 1;
            }
        },
        None => {
            proof {
                assert(views(r@) =~= Seq::<Seq<char>>::empty());
            }
        },
    }
    r
}

/// The usage count `usage[key]` of a reply.
pub open spec fn reply_usage(resp: JsonView, key: Seq<char>) -> u32 {
    usage_count(match field(resp, "usage"@) {
        Some(u) => field(u, key),
        None => None,
    })
}

/// A listed call read as (id, name, arguments).
pub open spec fn call_triple(c: JsonView, arguments: JsonView) -> (Seq<char>, Seq<char>, JsonView) {
    (
        match str_of(field(c, "id"@)) {
            Some(t) => t,
            None => Seq::empty(),
        },
        match nested_str(c, "function"@, "name"@) {
            Some(t) => t,
            None => Seq::empty(),
        },
        arguments,
    )
}

/// Reads a reply; `arguments` holds the parsed arguments of its tool calls,
/// in order.
pub fn parse_response(resp: &Json, arguments: Vec<Json>) -> (r: ProviderResponse)
    requires
        arguments@.len() == reply_calls(resp@).len(),
    ensures
        opt_str(r.content) == match reply_message(resp@) {
            Some(m) => str_of(field(m, "content"@)),
            None => None,
        },
        r.reasoning is None,
        r.usage.input_tokens == reply_usage(resp@, "prompt_tokens"@),
        r.usage.output_tokens == reply_usage(resp@, "completion_tokens"@),
        call_views(r.tool_calls@) == Seq::new(
            reply_calls(resp@).len(),
            |i: int| call_triple(reply_calls(resp@)[i], arguments@[i]@),
        ),
        r.done == exists|i: int|
            0 <= i < reply_calls(resp@).len() && nested_str(#[trigger] reply_calls(resp@)[i], "function"@, "name"@)
                == Some("task_done"@),
{
    let content = match message_of(resp) {
        Some(m) => match m.get("content") {
            Some(c) => match c.as_str() {
                Some(t) => Some(owned(t)),
                None => None,
            },
            None => None,
        },
        None => None,
    };
    let input_tokens = match resp.get("usage") {
        Some(u) => match u.get("prompt_tokens") {
            Some(n) => match n.as_u64() {
                Some(x) => #[verifier::truncate] (x as u32),
                None => 0,
            },
            None => 0,
        },
        None => 0,
    };
    let output_tokens = match resp.get("usage") {
        Some(u) => match u.get("completion_tokens") {
            Some(n) => match n.as_u64() {
                Some(x) => #[verifier::truncate] (x as u32),
                None => 0,
            },
            None => 0,
        },
        None => 0,
    };
    let ghost rc = reply_calls(resp@);
    let ghost av = arguments@;
    let mut calls: Vec<ToolCall> = Vec::new();
    let mut done = false;
    let mut args = arguments;
    proof {
        assert(av.skip(0) =~= av);
    }
    let ghost spec_calls = Seq::new(rc.len(), |i: int| call_triple(rc[i], av[i]@));
    match calls_of(resp) {
        Some(list) => {
            let mut i: usize = 0;
            while i < list.len()
                invariant
                    i <= list@.len(),
                    values_view(list@) == rc,
                    av.len() == rc.len(),
                    args@ == av.skip(i as int),
                    spec_calls == Seq::new(rc.len(), |k: int| call_triple(rc[k], av[k]@)),
                    call_views(calls@) == spec_calls.take(i as int),
                    done == exists|k: int| 0 <= k < i && nested_str(#[trigger] rc[k], "function"@, "name"@) == Some("task_done"@),
                decreases list@.len() - i,
            {
                let c = &list[i];
                let id = match c.get("id") {
                    Some(x) => match x.as_str() {
                        Some(t) => owned(t),
                        None => String::new(),
                    },
                    None => String::new(),
                };
                let name = match nested_text(c, "function", "name") {
                    Some(t) => t,
                    None => String::new(),
                };
                let named_done = str_eq(name.as_str(), "task_done");
                proof {
                    reveal_strlit("task_done");
                    assert(rc[i as int] == c@);
                }
                proof {
                    reveal_strlit("task_done");
                    assert("task_done"@.len() == 9);
                    assert(named_done == (nested_str(rc[i as int], "function"@, "name"@) == Some("task_done"@)));
                }
                let ghost old_done = done;
                if named_done {
                    done = true;
                }
                proof {
                    if named_done {
                        assert(nested_str(rc[i as int], "function"@, "name"@) == Some("task_done"@));
                    } else {
                        assert forall|k: int| 0 <= k < i + 1 && nested_str(#[trigger] rc[k], "function"@, "name"@) == Some("task_done"@) implies k < i by {}
                    }
                }
                proof {
                    assert(args@.len() > 0);
                }
                let a = args.remove(0);
                proof {
                    assert(a == av[i as int]);
                    assert(args@ =~= av.skip(i + 1));
                }
                let ghost before = calls@;
                let tc = ToolCall { id, name, arguments: a };
                let ghost tcv = (tc.id@, tc.name@, tc.arguments@);
                calls.push(tc);
                proof {
                    assert(call_views(calls@) =~= call_views(before).push(tcv));
                    assert(spec_calls.take(i + 1) =~= spec_calls.take(i as int).push(spec_calls[i as int]));
                }
                i += 1;
            }
            proof {
                assert(spec_calls.take(i as int) =~= spec_calls);
            }
        },
        None => {
            proof {
                assert(call_views(calls@) =~= spec_calls);
            }
        },
    }
    ProviderResponse { content, tool_calls: calls, usage: Usage { input_tokens, output_tokens }, reasoning: None, done }
}

/// Each tool call is written with its own id, name and argument text, so the
/// tool message that answers it (which carries that id as `tool_call_id`)
/// can be matched to it.
pub proof fn lemma_written_calls_keep_ids(m: Message, arguments_texts: Seq<Seq<char>>, i: int)
    requires
        m.tool_calls matches Some(v) && 0 <= i < v@.len() && arguments_texts.len() == v@.len(),
    ensures
        ({
            let v = m.tool_calls->0;
            let calls = field(message_entry(m, arguments_texts), "tool_calls"@);
            let a = calls->0->Array_0;
            let f = field(a[i], "function"@)->0;
            &&& calls matches Some(JsonView::Array(_))
            &&& a.len() == v@.len()
            &&& field(a[i], "id"@) == Some(JsonView::Str(v@[i].id@))
            &&& field(a[i], "type"@) == Some(JsonView::Str("function"@))
            &&& field(a[i], "function"@) is Some
            &&& field(f, "name"@) == Some(JsonView::Str(v@[i].name@))
            &&& field(f, "arguments"@) == Some(JsonView::Str(arguments_texts[i]))
        }),
{
    reveal_strlit("tool_calls");
    reveal_strlit("role");
    reveal_strlit("content");
    reveal_strlit("id");
    reveal_strlit("type");
    reveal_strlit("function");
    reveal_strlit("name");
    reveal_strlit("arguments");
    reveal_with_fuel(lookup, 4);
    assert("role"@.len() != "tool_calls"@.len());
    assert("content"@.len() != "tool_calls"@.len());
    assert("id"@.len() != "type"@.len());
    assert("id"@.len() != "function"@.len());
    assert("type"@.len() != "function"@.len());
    assert("name"@.len() != "arguments"@.len());
}

/// A message that answers a tool call is written with the id of that call.
pub proof fn lemma_answers_carry_call_id(m: Message, arguments_texts: Seq<Seq<char>>)
    requires
        m.tool_call_id is Some,
    ensures
        field(message_entry(m, arguments_texts), "tool_call_id"@) == Some(
            JsonView::Str(m.tool_call_id->0@),
        ),
{
    reveal_strlit("tool_call_id");
    reveal_strlit("tool_calls");
    reveal_strlit("role");
    reveal_strlit("content");
    reveal_with_fuel(lookup, 5);
    assert("role"@.len() != "tool_call_id"@.len());
    assert("content"@.len() != "tool_call_id"@.len());
    assert("tool_calls"@.len() != "tool_call_id"@.len());
}

/// Writing and reading agree: a tool call written as the API lists it is
/// read back as the same call (its id and name), and its argument text is
/// the text that was written.
pub proof fn lemma_call_entry_reads_back(tc: ToolCall, text: Seq<char>, arguments: JsonView)
    ensures
        call_triple(call_entry(tc, text), arguments) == (tc.id@, tc.name@, arguments),
        arguments_text(call_entry(tc, text)) == text,
{
    reveal_strlit("id");
    reveal_strlit("type");
    reveal_strlit("function");
    reveal_strlit("name");
    reveal_strlit("arguments");
    reveal_with_fuel(lookup, 4);
    assert("id"@.len() != "type"@.len());
    assert("id"@.len() != "function"@.len());
    assert("type"@.len() != "function"@.len());
    assert("name"@.len() != "arguments"@.len());
}

} // verus!
