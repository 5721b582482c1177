//! The Anthropic Messages API: how a conversation and tools are written for
//! it, and how its reply is read. The HTTP exchange is the caller's.

use vstd::prelude::*;
use crate::json::{
    deep_copy, entries_view, entry, field, jv, lookup, str_of, u64_of, values_view, Json, JsonView,
};
use crate::provider::{opt_str, Message, ProviderResponse, ToolCall, ToolDefinition, Usage};
use crate::text::{owned, str_eq};

verus! {

/// A text value.
pub open spec fn s(t: Seq<char>) -> JsonView {
    JsonView::Str(t)
}

/// A user turn with text content.
pub open spec fn user_entry(content: Seq<char>) -> JsonView {
    JsonView::Object(seq![("role"@, s("user"@)), ("content"@, s(content))])
}

/// A user turn made of tool results.
pub open spec fn tool_group_entry(blocks: Seq<JsonView>) -> JsonView {
    JsonView::Object(seq![("role"@, s("user"@)), ("content"@, JsonView::Array(blocks))])
}

/// A tool result block.
pub open spec fn tool_result_block(id: Seq<char>, content: Seq<char>) -> JsonView {
    JsonView::Object(
        seq![("type"@, s("tool_result"@)), ("tool_use_id"@, s(id)), ("content"@, s(content))],
    )
}

/// A text block.
pub open spec fn text_block(text: Seq<char>) -> JsonView {
    JsonView::Object(seq![("type"@, s("text"@)), ("text"@, s(text))])
}

/// A tool use block.
pub open spec fn tool_use_block(tc: ToolCall) -> JsonView {
    JsonView::Object(
        seq![
            ("type"@, s("tool_use"@)),
            ("id"@, s(tc.id@)),
            ("name"@, s(tc.name@)),
            ("input"@, tc.arguments@),
        ],
    )
}

/// The content blocks of an assistant message: its text, then its tool uses.
pub open spec fn assistant_blocks(m: Message) -> Seq<JsonView> {
    let head = match m.content {
        Some(c) => seq![text_block(c@)],
        None => Seq::empty(),
    };
    let calls = match m.tool_calls {
        Some(v) => Seq::new(v@.len(), |i: int| tool_use_block(v@[i])),
        None => Seq::empty(),
    };
    head + calls
}

/// An assistant turn.
pub open spec fn assistant_entry(m: Message) -> JsonView {
    JsonView::Object(
        seq![("role"@, s("assistant"@)), ("content"@, JsonView::Array(assistant_blocks(m)))],
    )
}

/// The text of an optional string, empty when absent.
pub open spec fn text_or_empty(o: Option<String>) -> Seq<char> {
    match o {
        Some(t) => t@,
        None => Seq::empty(),
    }
}

/// The conversion after a prefix of the conversation: the system prompt so
/// far, the turns written, and the tool results not yet closed into a turn.
/// Consecutive tool results (system and unknown messages between them do not
/// interrupt) form one user turn.
pub open spec fn conversion_state(ms: Seq<Message>) -> (Option<JsonView>, Seq<JsonView>, Option<
    Seq<JsonView>,
>)
    decreases ms.len(),
{
    if ms.len() == 0 {
        (None, Seq::empty(), None)
    } else {
        let prev = conversion_state(ms.drop_last());
        let m = ms.last();
        let closed = match prev.2 {
            Some(g) => prev.1.push(tool_group_entry(g)),
            None => prev.1,
        };
        if m.role@ == "system"@ {
            (
                match m.content {
                    Some(c) => Some(s(c@)),
                    None => None,
                },
                prev.1,
                prev.2,
            )
        } else if m.role@ == "user"@ {
            (prev.0, closed.push(user_entry(text_or_empty(m.content))), None)
        } else if m.role@ == "assistant"@ {
            (prev.0, closed.push(assistant_entry(m)), None)
        } else if m.role@ == "tool"@ {
            let block = tool_result_block(text_or_empty(m.tool_call_id), text_or_empty(m.content));
            (
                prev.0,
                prev.1,
                Some(
                    match prev.2 {
                        Some(g) => g.push(block),
                        None => seq![block],
                    },
                ),
            )
        } else {
            prev
        }
    }
}

/// The system prompt and the turns of a conversation.
pub open spec fn converted(ms: Seq<Message>) -> (Option<JsonView>, Seq<JsonView>) {
    let st = conversion_state(ms);
    (
        st.0,
        match st.2 {
            Some(g) => st.1.push(tool_group_entry(g)),
            None => st.1,
        },
    )
}

fn text_of(o: &Option<String>) -> (r: String)
    ensures
        r@ == text_or_empty(*o),
{
    match o {
        Some(t) => owned(t.as_str()),
        None => String::new(),
    }
}

fn pair(a: (String, Json), b: (String, Json)) -> (r: Json)
    ensures
        r@ == JsonView::Object(seq![(a.0@, a.1@), (b.0@, b.1@)]),
{
    let mut e: Vec<(String, Json)> = Vec::new();
    e.push(a);
    e.push(b);
    let r = Json::object(e);
    proof {
        assert(r@->Object_0 =~= seq![(a.0@, a.1@), (b.0@, b.1@)]);
    }
    r
}

fn close_group(done: &mut Vec<Json>, group: Option<Vec<Json>>)
    ensures
        values_view(final(done)@) == match group {
            Some(g) => values_view(old(done)@).push(tool_group_entry(values_view(g@))),
            None => values_view(old(done)@),
        },
{
    match group {
        Some(g) => {
            let ghost gv = values_view(g@);
            let entry_json = pair(entry("role", Json::string("user")), entry("content", Json::array(g)));
            let ghost ev = entry_json@;
            let ghost before = done@;
            done.push(entry_json);
            proof {
                assert(ev == tool_group_entry(gv));
                assert(values_view(done@) =~= values_view(before).push(ev));
            }
        },
        None => {},
    }
}

fn assistant_json(m: &Message) -> (r: Json)
    ensures
        r@ == assistant_entry(*m),
{
    let mut blocks: Vec<Json> = Vec::new();
    match &m.content {
        Some(c) => {
            blocks.push(pair(entry("type", Json::string("text")), entry("text", Json::string(c.as_str()))));
        },
        None => {},
    }
    let ghost head = values_view(blocks@);
    proof {
        assert(head =~= match m.content {
            Some(c) => seq![text_block(c@)],
            None => Seq::<JsonView>::empty(),
        });
    }
    match &m.tool_calls {
        Some(calls) => {
            let mut i: usize = 0;
            while i < calls.len()
                invariant
                    i <= calls@.len(),
                    m.tool_calls == Some(*calls),
                    values_view(blocks@) == head + Seq::new(i as nat, |k: int| tool_use_block(calls@[k])),
                decreases calls@.len() - i,
            {
                let tc = &calls[i];
                let mut e: Vec<(String, Json)> = Vec::new();
                e.push(entry("type", Json::string("tool_use")));
                e.push(entry("id", Json::string(tc.id.as_str())));
                e.push(entry("name", Json::string(tc.name.as_str())));
                e.push(entry("input", deep_copy(&tc.arguments)));
                let b = Json::object(e);
                proof {
                    assert(b@->Object_0 =~= tool_use_block(*tc)->Object_0);
                }
                let ghost bv = b@;
                let ghost before = blocks@;
                blocks.push(b);
                proof {
                    assert(values_view(blocks@) =~= values_view(before).push(bv));
                    assert(values_view(blocks@) =~= head + Seq::new((i + 1) as nat, |k: int| tool_use_block(calls@[k])));
                }
                i += 1;
            }
        },
        None => {
            proof {
                assert(values_view(blocks@) =~= head + Seq::<JsonView>::empty());
            }
        },
    }
    let ghost bv = values_view(blocks@);
    let r = pair(entry("role", Json::string("assistant")), entry("content", Json::array(blocks)));
    proof {
        assert(bv =~= assistant_blocks(*m));
    }
    r
}

/// The system prompt (the content of the last system message) and the turns
/// of the conversation, as the Messages API takes them.
pub fn convert_messages(messages: &Vec<Message>) -> (r: (Option<Json>, Vec<Json>))
    ensures
        (match r.0 {
            Some(j) => Some(j@),
            None => None,
        }) == converted(messages@).0,
        values_view(r.1@) == converted(messages@).1,
{
    let mut system: Option<Json> = None;
    let mut done: Vec<Json> = Vec::new();
    let mut group: Option<Vec<Json>> = None;
    let mut i: usize = 0;
    proof {
        assert(messages@.take(0) =~= Seq::<Message>::empty());
        assert(values_view(done@) =~= Seq::<JsonView>::empty());
    }
    while i < messages.len()
        invariant
            i <= messages@.len(),
            ({
                let st = conversion_state(messages@.take(i as int));
                &&& (match system {
                    Some(j) => Some(j@),
                    None => None,
                }) == st.0
                &&& values_view(done@) == st.1
                &&& (match group {
                    Some(g) => Some(values_view(g@)),
                    None => None,
                }) == st.2
            }),
        decreases messages@.len() - i,
    {
        let m = &messages[i];
        proof {
            assert(messages@.take(i + 1).drop_last() =~= messages@.take(i as int));
            assert(messages@.take(i + 1).last() == *m);
        }
        let role = m.role.as_str();
        if str_eq(role, "system") {
            system = match &m.content {
                Some(c) => Some(Json::string(c.as_str())),
                None => None,
            };
        } else if str_eq(role, "user") {
            let g = group;
            group = None;
            close_group(&mut done, g);
            let u = pair(entry("role", Json::string("user")), entry("content", Json::string(text_of(&m.content).as_str())));
            let ghost uv = u@;
            let ghost before = done@;
            done.push(u);
            proof {
                assert(values_view(done@) =~= values_view(before).push(uv));
            }
        } else if str_eq(role, "assistant") {
            let g = group;
            group = None;
            close_group(&mut done, g);
            let a = assistant_json(m);
            let ghost av = a@;
            let ghost before = done@;
            done.push(a);
            proof {
                assert(values_view(done@) =~= values_view(before).push(av));
            }
        } else if str_eq(role, "tool") {
            let mut e: Vec<(String, Json)> = Vec::new();
            e.push(entry("type", Json::string("tool_result")));
            e.push(entry("tool_use_id", Json::string(text_of(&m.tool_call_id).as_str())));
            e.push(entry("content", Json::string(text_of(&m.content).as_str())));
            let b = Json::object(e);
            let ghost bv = b@;
            proof {
                assert(bv->Object_0 =~= tool_result_block(text_or_empty(m.tool_call_id), text_or_empty(m.content))->Object_0);
            }
            let mut g = match group {
                Some(g) => g,
                None => Vec::new(),
            };
            let ghost before = g@;
            g.push(b);
            proof {
                assert(values_view(g@) =~= values_view(before).push(bv));
                assert(values_view(Seq::<Json>::empty()).push(bv) =~= seq![bv]);
            }
            group = Some(g);
        }
        i += 1;
    }
    proof {
        assert(messages@.take(messages@.len() as int) =~= messages@);
    }
    close_group(&mut done, group);
    (system, done)
}

/// A tool as the Messages API takes it.
pub open spec fn tool_entry(t: ToolDefinition) -> JsonView {
    JsonView::Object(
        seq![("name"@, s(t.name@)), ("description"@, s(t.description@)), ("input_schema"@, t.parameters@)],
    )
}

/// The tools, as the Messages API takes them.
pub fn convert_tools(tools: &Vec<ToolDefinition>) -> (r: Vec<Json>)
    ensures
        values_view(r@) == Seq::new(tools@.len(), |i: int| tool_entry(tools@[i])),
{
    let mut r: Vec<Json> = Vec::new();
    let mut i: usize = 0;
    while i < tools.len()
        invariant
            i <= tools@.len(),
            values_view(r@) == Seq::new(i as nat, |k: int| tool_entry(tools@[k])),
        decreases tools@.len() - i,
    {
        let t = &tools[i];
        let mut e: Vec<(String, Json)> = Vec::new();
        e.push(entry("name", Json::string(t.name.as_str())));
        e.push(entry("description", Json::string(t.description.as_str())));
        e.push(entry("input_schema", deep_copy(&t.parameters)));
        let j = Json::object(e);
        proof {
            assert(j@->Object_0 =~= tool_entry(*t)->Object_0);
        }
        let ghost jv0 = j@;
        let ghost before = r@;
        r.push(j);
        proof {
            assert(values_view(r@) =~= values_view(before).push(jv0));
            assert(values_view(r@) =~= Seq::new((i + 1) as nat, |k: int| tool_entry(tools@[k])));
        }
        i += 1;
    }
    r
}

/// `v[key]`: the member, or null when missing.
pub open spec fn member(v: JsonView, key: Seq<char>) -> JsonView {
    match field(v, key) {
        Some(x) => x,
        None => JsonView::Null,
    }
}

/// What the reply's content blocks say, read in order: the last text, the
/// last thinking, the tool uses (id, name, input), and whether `task_done`
/// is among them.
pub open spec fn read_blocks(blocks: Seq<JsonView>) -> (Option<Seq<char>>, Option<Seq<char>>, Seq<
    (Seq<char>, Seq<char>, JsonView),
>, bool)
    decreases blocks.len(),
{
    if blocks.len() == 0 {
        (None, None, Seq::empty(), false)
    } else {
        let prev = read_blocks(blocks.drop_last());
        let b = blocks.last();
        let kind = str_of(field(b, "type"@));
        if kind == Some("text"@) {
            match str_of(field(b, "text"@)) {
                Some(t) => (Some(t), prev.1, prev.2, prev.3),
                None => prev,
            }
        } else if kind == Some("thinking"@) {
            match str_of(field(b, "thinking"@)) {
                Some(t) => (prev.0, Some(t), prev.2, prev.3),
                None => prev,
            }
        } else if kind == Some("tool_use"@) {
            let id = match str_of(field(b, "id"@)) {
                Some(t) => t,
                None => Seq::empty(),
            };
            let name = match str_of(field(b, "name"@)) {
                Some(t) => t,
                None => Seq::empty(),
            };
            (prev.0, prev.1, prev.2.push((id, name, member(b, "input"@))), prev.3 || name
                == "task_done"@)
        } else {
            prev
        }
    }
}

/// The blocks of the reply's `content` (none when it is not a list).
pub open spec fn reply_blocks(resp: JsonView) -> Seq<JsonView> {
    match field(resp, "content"@) {
        Some(JsonView::Array(b)) => b,
        _ => Seq::empty(),
    }
}

/// A usage count: the number when present, else 0, cast to a `u32`.
pub open spec fn usage_count(v: Option<JsonView>) -> u32 {
    match u64_of(v) {
        Some(n) => (n as u64) as u32,
        None => 0,
    }
}

/// The calls read from a reply, as (id, name, arguments).
pub open spec fn call_views(calls: Seq<ToolCall>) -> Seq<(Seq<char>, Seq<char>, JsonView)> {
    Seq::new(calls.len(), |i: int| (calls[i].id@, calls[i].name@, calls[i].arguments@))
}

fn text_field(v: &Json, key: &str) -> (r: Option<String>)
    ensures
        match r {
            Some(t) => str_of(field(v@, key@)) == Some(t@),
            None => str_of(field(v@, key@)) is None,
        },
{
    match v.get(key) {
        Some(x) => match x.as_str() {
            Some(t) => Some(owned(t)),
            None => None,
        },
        None => None,
    }
}

fn count_field(v: &Json, outer: &str, key: &str) -> (r: u32)
    ensures
        r == usage_count(match field(v@, outer@) {
            Some(u) => field(u, key@),
            None => None,
        }),
{
    match v.get(outer) {
        Some(u) => match u.get(key) {
            Some(n) => match n.as_u64() {
                Some(x) => #[verifier::truncate] (x as u32),
                None => 0,
            },
            None => 0,
        },
        None => 0,
    }
}

/// Reads a Messages API reply.
pub fn parse_response(resp: &Json) -> (r: ProviderResponse)
    ensures
        ({
            let rb = read_blocks(reply_blocks(resp@));
            &&& opt_str(r.content) == rb.0
            &&& opt_str(r.reasoning) == rb.1
            &&& call_views(r.tool_calls@) == rb.2
            &&& r.done == rb.3
            &&& r.usage.input_tokens == usage_count(match field(resp@, "usage"@) {
                Some(u) => field(u, "input_tokens"@),
                None => None,
            })
            &&& r.usage.output_tokens == usage_count(match field(resp@, "usage"@) {
                Some(u) => field(u, "output_tokens"@),
                None => None,
            })
        }),
{
    let input_tokens = count_field(resp, "usage", "input_tokens");
    let output_tokens = count_field(resp, "usage", "output_tokens");
    let mut content: Option<String> = None;
    let mut reasoning: Option<String> = None;
    let mut calls: Vec<ToolCall> = Vec::new();
    let mut done = false;
    let empty: Vec<Json> = Vec::new();
    let blocks: &Vec<Json> = match resp.get("content") {
        Some(c) => match c.as_array() {
            Some(b) => b,
            None => &empty,
        },
        None => &empty,
    };
    let ghost bv = values_view(blocks@);
    proof {
        assert(values_view(empty@) =~= Seq::<JsonView>::empty());
        assert(bv == reply_blocks(resp@));
    }
    let mut i: usize = 0;
    proof {
        assert(bv.take(0) =~= Seq::<JsonView>::empty());
        assert(call_views(calls@) =~= Seq::empty());
    }
    while i < blocks.len()
        invariant
            i <= blocks@.len(),
            bv == values_view(blocks@),
            ({
                let st = read_blocks(bv.take(i as int));
                &&& opt_str(content) == st.0
                &&& opt_str(reasoning) == st.1
                &&& call_views(calls@) == st.2
                &&& done == st.3
            }),
        decreases blocks@.len() - i,
    {
        let b = &blocks[i];
        proof {
            assert(bv.take(i + 1).drop_last() =~= bv.take(i as int));
            assert(bv.take(i + 1).last() == b@);
        }
        let kind = text_field(b, "type");
        let is_text = match &kind { Some(k) => str_eq(k.as_str(), "text"), None => false };
        let is_thinking = match &kind { Some(k) => str_eq(k.as_str(), "thinking"), None => false };
        let is_tool = match &kind { Some(k) => str_eq(k.as_str(), "tool_use"), None => false };
        proof {
            reveal_strlit("text");
            reveal_strlit("thinking");
            reveal_strlit("tool_use");
        }
        if is_text {
            match text_field(b, "text") {
                Some(t) => { content = Some(t); },
                None => {},
            }
        } else if is_thinking {
            match text_field(b, "thinking") {
                Some(t) => { reasoning = Some(t); },
                None => {},
            }
        } else if is_tool {
            let id = match text_field(b, "id") { Some(t) => t, None => String::new() };
            let name = match text_field(b, "name") { Some(t) => t, None => String::new() };
            let input = match b.get("input") {
                Some(x) => deep_copy(x),
                None => Json::Null,
            };
            if str_eq(name.as_str(), "task_done") {
                done = true;
            }
            let ghost before = calls@;
            let tc = ToolCall { id, name, arguments: input };
            let ghost tcv = (tc.id@, tc.name@, tc.arguments@);
            calls.push(tc);
            proof {
                assert(call_views(calls@) =~= call_views(before).push(tcv));
            }
        }
        i += 1;
    }
    proof {
        assert(bv.take(blocks@.len() as int) =~= bv);
    }
    ProviderResponse {
        content,
        tool_calls: calls,
        usage: Usage { input_tokens, output_tokens },
        reasoning,
        done,
    }
}

/// A tool's answer reaches the model as it was given: after any conversation,
/// a tool message is written as a `tool_result` block, at the end of the last
/// (user) turn, that carries the id of the call it answers and the tool's
/// output as its content.
pub proof fn lemma_tool_answer_is_forwarded(ms: Seq<Message>, m: Message)
    requires
        m.role@ == "tool"@,
    ensures
        ({
            let turns = converted(ms.push(m)).1;
            &&& turns.len() > 0
            &&& field(turns.last(), "role"@) == Some(JsonView::Str("user"@))
            &&& field(turns.last(), "content"@) matches Some(JsonView::Array(blocks)) && blocks.len()
                > 0 && field(blocks.last(), "type"@) == Some(JsonView::Str("tool_result"@))
                && field(blocks.last(), "tool_use_id"@) == Some(JsonView::Str(text_or_empty(m.tool_call_id)))
                && field(blocks.last(), "content"@) == Some(JsonView::Str(text_or_empty(m.content)))
        }),
{
    reveal_strlit("tool");
    reveal_strlit("system");
    reveal_strlit("user");
    reveal_strlit("assistant");
    reveal_strlit("role");
    reveal_strlit("content");
    reveal_strlit("type");
    reveal_strlit("tool_use_id");
    reveal_with_fuel(lookup, 4);
    let all = ms.push(m);
    assert(all.drop_last() =~= ms);
    assert(all.last() == m);
    assert("tool"@.len() != "system"@.len());
    assert("tool"@[0] != "user"@[0]);
    assert("tool"@.len() != "assistant"@.len());
    assert(m.role@ != "system"@);
    assert(m.role@ != "user"@);
    assert(m.role@ != "assistant"@);
    let st = conversion_state(all);
    let block = tool_result_block(text_or_empty(m.tool_call_id), text_or_empty(m.content));
    let g = st.2->0;
    assert(g.last() == block);
    let turn = tool_group_entry(g);
    assert(converted(all).1.last() == turn);
    assert("role"@.len() != "content"@.len());
    assert("type"@.len() != "tool_use_id"@.len());
    assert("type"@.len() != "content"@.len());
    assert("tool_use_id"@.len() != "content"@.len());
}

/// Writing and reading agree: a tool call written as a `tool_use` block is
/// read back, after whatever blocks came before, as the same call (id, name,
/// input), and the reply counts as done exactly when an earlier block did or
/// the call is `task_done`; a text block is read back as the reply's text.
pub proof fn lemma_blocks_read_back(blocks: Seq<JsonView>, tc: ToolCall, text: Seq<char>)
    ensures
        read_blocks(blocks.push(tool_use_block(tc))).2 == read_blocks(blocks).2.push(
            (tc.id@, tc.name@, tc.arguments@),
        ),
        read_blocks(blocks.push(tool_use_block(tc))).3 == (read_blocks(blocks).3 || tc.name@
            == "task_done"@),
        read_blocks(blocks.push(tool_use_block(tc))).0 == read_blocks(blocks).0,
        read_blocks(blocks.push(text_block(text))).0 == Some(text),
        read_blocks(blocks.push(text_block(text))).2 == read_blocks(blocks).2,
{
    reveal_strlit("type");
    reveal_strlit("text");
    reveal_strlit("thinking");
    reveal_strlit("tool_use");
    reveal_strlit("id");
    reveal_strlit("name");
    reveal_strlit("input");
    reveal_with_fuel(lookup, 5);
    assert("type"@.len() != "id"@.len());
    assert("type"@[0] != "name"@[0]);
    assert("type"@.len() != "input"@.len());
    assert("id"@.len() != "name"@.len());
    assert("id"@.len() != "input"@.len());
    assert("name"@.len() != "input"@.len());
    assert("type"@[1] != "text"@[1]);
    assert("text"@.len() != "tool_use"@.len());
    assert("thinking"@[1] != "tool_use"@[1]);
    assert("text"@.len() != "thinking"@.len());
    let b1 = blocks.push(tool_use_block(tc));
    assert(b1.drop_last() =~= blocks);
    let b2 = blocks.push(text_block(text));
    assert(b2.drop_last() =~= blocks);
}

/// A user message reaches the model as a user turn with its text (empty when
/// it has none), after whatever came before.
pub proof fn lemma_user_message_forwarded(ms: Seq<Message>, m: Message)
    requires
        m.role@ == "user"@,
    ensures
        converted(ms.push(m)).1.last() == JsonView::Object(
            seq![("role"@, JsonView::Str("user"@)), ("content"@, JsonView::Str(text_or_empty(m.content)))],
        ),
{
    reveal_strlit("system");
    reveal_strlit("user");
    assert("user"@.len() != "system"@.len());
    let all = ms.push(m);
    assert(all.drop_last() =~= ms);
}

proof fn lemma_text_block_read_back(blocks: Seq<JsonView>, text: Seq<char>)
    ensures
        read_blocks(blocks.push(text_block(text))).0 == Some(text),
        read_blocks(blocks.push(text_block(text))).2 == read_blocks(blocks).2,
{
    reveal_strlit("type");
    reveal_strlit("text");
    reveal_with_fuel(lookup, 3);
    assert("type"@[1] != "text"@[1]);
    let b2 = blocks.push(text_block(text));
    assert(b2.drop_last() =~= blocks);
}

proof fn lemma_use_blocks_read_back(head: Seq<JsonView>, v: Seq<ToolCall>, n: int)
    requires
        0 <= n <= v.len(),
        read_blocks(head).2.len() == 0,
    ensures
        read_blocks(head + Seq::new(n as nat, |i: int| tool_use_block(v[i]))).2 == call_views(
            v.take(n),
        ),
        read_blocks(head + Seq::new(n as nat, |i: int| tool_use_block(v[i]))).0 == read_blocks(
            head,
        ).0,
    decreases n,
{
    let cur = head + Seq::new(n as nat, |i: int| tool_use_block(v[i]));
    if n == 0 {
        assert(cur =~= head);
        assert(call_views(v.take(0)) =~= Seq::empty());
    } else {
        lemma_use_blocks_read_back(head, v, n - 1);
        let prev = head + Seq::new((n - 1) as nat, |i: int| tool_use_block(v[i]));
        assert(cur =~= prev.push(tool_use_block(v[n - 1])));
        lemma_blocks_read_back(prev, v[n - 1], Seq::empty());
        assert(call_views(v.take(n)) =~= call_views(v.take(n - 1)).push(
            (v[n - 1].id@, v[n - 1].name@, v[n - 1].arguments@),
        ));
    }
}

/// An assistant message reaches the model as an assistant turn whose blocks
/// read back as the message itself: its text, and its tool calls in order
/// with their ids, names and inputs.
pub proof fn lemma_assistant_message_forwarded(ms: Seq<Message>, m: Message)
    requires
        m.role@ == "assistant"@,
    ensures
        field(converted(ms.push(m)).1.last(), "role"@) == Some(JsonView::Str("assistant"@)),
        field(converted(ms.push(m)).1.last(), "content"@) == Some(
            JsonView::Array(assistant_blocks(m)),
        ),
        read_blocks(assistant_blocks(m)).0 == opt_str(m.content),
        read_blocks(assistant_blocks(m)).2 == match m.tool_calls {
            Some(v) => call_views(v@),
            None => Seq::empty(),
        },
{
    reveal_strlit("system");
    reveal_strlit("user");
    reveal_strlit("assistant");
    reveal_strlit("role");
    reveal_strlit("content");
    reveal_with_fuel(lookup, 3);
    assert("assistant"@.len() != "system"@.len());
    assert("assistant"@.len() != "user"@.len());
    assert("role"@.len() != "content"@.len());
    let all = ms.push(m);
    assert(all.drop_last() =~= ms);
    let head = match m.content {
        Some(c) => seq![text_block(c@)],
        None => Seq::<JsonView>::empty(),
    };
    match m.content {
        Some(c) => {
            lemma_text_block_read_back(Seq::empty(), c@);
            assert(seq![text_block(c@)] =~= Seq::<JsonView>::empty().push(text_block(c@)));
        },
        None => {},
    }
    assert(read_blocks(head).2.len() == 0);
    match m.tool_calls {
        Some(v) => {
            lemma_use_blocks_read_back(head, v@, v@.len() as int);
            assert(v@.take(v@.len() as int) =~= v@);
        },
        None => {
            assert(head + Seq::<JsonView>::empty() =~= head);
        },
    }
}

} // verus!
