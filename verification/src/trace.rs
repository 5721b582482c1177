//! Trace events (`trace.jsonl`): each event is a JSON object with its data,
//! a sequence number, a timestamp and the event's name. Writing the lines and
//! reading the clock are the caller's.

use vstd::prelude::*;
use crate::json::{deep_copy, entries_view, entry, field, lookup, values_view, Json, JsonView};
use crate::text::{chars_eq, chars_of, dec, owned, views};

verus! {

/// The number a sequence hands out after `k` takes from `start`, wrapping
/// after `u64::MAX` like an atomic counter.
pub open spec fn after_takes(start: u64, k: nat) -> u64
    decreases k,
{
    if k == 0 {
        start
    } else {
        let n = after_takes(start, (k - 1) as nat);
        if n == u64::MAX {
            0
        } else {
            (n + 1) as u64
        }
    }
}

/// Trace events are numbered in the order they are logged: on a fresh
/// sequence, the event logged after `k` earlier events gets number `k`.
pub proof fn lemma_trace_numbers_count_up(k: nat)
    requires
        k <= u64::MAX,
    ensures
        after_takes(0, k) == k,
    decreases k,
{
    if k > 0 {
        lemma_trace_numbers_count_up((k - 1) as nat);
    }
}

/// Hands out trace sequence numbers: 0, 1, 2, ... (wrapping like an atomic
/// counter).
pub struct TraceSequence {
    next: u64,
}

impl TraceSequence {
    /// The number the next event gets.
    pub closed spec fn next_number(&self) -> u64 {
        self.next
    }

    /// A sequence starting at 0.
    pub fn new() -> (r: Self)
        ensures
            r.next_number() == 0,
    {
        TraceSequence { next: 0 }
    }

    /// The next number.
    pub fn take(&mut self) -> (r: u64)
        ensures
            r == old(self).next_number(),
            final(self).next_number() == (if r == u64::MAX { 0 } else { (r + 1) as u64 }),
            final(self).next_number() == after_takes(old(self).next_number(), 1),
    {
        let r = self.next;
        self.next = if self.next == u64::MAX { 0 } else { self.next + 1 };
        proof {
            assert(after_takes(r, 0) == r);
        }
        r
    }
}

/// `entries` with `key` set to `value`: the first entry with that key takes
/// the new value, or the entry is added at the end.
pub open spec fn set_entry(entries: Seq<(Seq<char>, JsonView)>, key: Seq<char>, value: JsonView) -> Seq<
    (Seq<char>, JsonView),
>
    decreases entries.len(),
{
    if entries.len() == 0 {
        seq![(key, value)]
    } else if entries[0].0 == key {
        entries.update(0, (key, value))
    } else {
        seq![entries[0]] + set_entry(entries.drop_first(), key, value)
    }
}

fn set_key(entries: &mut Vec<(String, Json)>, key: &str, value: Json)
    ensures
        entries_view(final(entries)@) == set_entry(entries_view(old(entries)@), key@, value@),
{
    let k = chars_of(key);
    let mut i: usize = 0;
    let ghost orig = entries_view(entries@);
    proof {
        assert(orig.skip(0) =~= orig);
        assert(orig.take(0) + set_entry(orig.skip(0), key@, value@) =~= set_entry(orig, key@, value@));
    }
    while i < entries.len()
        invariant
            i <= entries@.len(),
            k@ == key@,
            entries_view(entries@) == orig,
            orig == entries_view(old(entries)@),
            orig.take(i as int) + set_entry(orig.skip(i as int), key@, value@) == set_entry(
                orig,
                key@,
                value@,
            ),
        decreases entries@.len() - i,
    {
        let name = chars_of(entries[i].0.as_str());
        proof {
            assert(orig.skip(i as int)[0] == orig[i as int]);
            assert(orig.skip(i as int).drop_first() =~= orig.skip(i + 1));
        }
        if chars_eq(&name, &k) {
            let ghost vv = value@;
            entries.set(i, (owned(key), value));
            proof {
                assert(entries_view(entries@) =~= orig.take(i as int) + orig.skip(i as int).update(
                    0,
                    (key@, vv),
                ));
                assert(orig.skip(i as int)[0].0 == key@);
                assert(set_entry(orig.skip(i as int), key@, vv) == orig.skip(i as int).update(
                    0,
                    (key@, vv),
                ));
            }
            return;
        }
        proof {
            assert(orig.take(i + 1) =~= orig.take(i as int) + seq![orig[i as int]]);
        }
        i += 1;
    }
    let ghost vv = value@;
    entries.push((owned(key), value));
    proof {
        assert(orig.skip(i as int) =~= Seq::<(Seq<char>, JsonView)>::empty());
        assert(orig.take(i as int) =~= orig);
        assert(entries_view(entries@) =~= orig + seq![(key@, vv)]);
    }
}

/// The entries of a trace event's data: an object's own entries, or any other
/// value under `data`.
pub open spec fn data_entries(data: JsonView) -> Seq<(Seq<char>, JsonView)> {
    match data {
        JsonView::Object(e) => e,
        _ => seq![("data"@, data)],
    }
}

/// A trace event as written: the data's entries with `seq`, `timestamp` and
/// `event` set.
pub open spec fn trace_entry_view(event: Seq<char>, data: JsonView, seq: u64, timestamp: Seq<char>) -> JsonView {
    JsonView::Object(
        set_entry(
            set_entry(
                set_entry(data_entries(data), "seq"@, JsonView::Number(dec(seq as nat))),
                "timestamp"@,
                JsonView::Str(timestamp),
            ),
            "event"@,
            JsonView::Str(event),
        ),
    )
}

/// The trace event `event` with its data, number and timestamp.
pub fn trace_entry(event: &str, data: Json, seq: u64, timestamp: &str) -> (r: Json)
    ensures
        r@ == trace_entry_view(event@, data@, seq, timestamp@),
{
    let ghost dv = data@;
    let mut entries: Vec<(String, Json)> = match data {
        Json::Object(e) => {
            proof {
                assert(entries_view(e@) =~= dv->Object_0);
            }
            e
        },
        other => {
            let mut e: Vec<(String, Json)> = Vec::new();
            e.push(entry("data", other));
            proof {
                assert(entries_view(e@) =~= seq![("data"@, dv)]);
            }
            e
        },
    };
    set_key(&mut entries, "seq", Json::unsigned(seq));
    set_key(&mut entries, "timestamp", Json::string(timestamp));
    set_key(&mut entries, "event", Json::string(event));
    Json::object(entries)
}

/// A list of strings as a JSON array.
pub fn string_array(items: &Vec<String>) -> (r: Json)
    ensures
        r@ == JsonView::Array(Seq::new(items@.len(), |i: int| JsonView::Str(items@[i]@))),
{
    let mut v: Vec<Json> = Vec::new();
    let mut i: usize = 0;
    while i < items.len()
        invariant
            i <= items@.len(),
            values_view(v@) == Seq::new(i as nat, |k: int| JsonView::Str(items@[k]@)),
        decreases items@.len() - i,
    {
        let ghost before = v@;
        let x = Json::string(items[i].as_str());
        let ghost xv = x@;
        v.push(x);
        proof {
            assert(values_view(v@) =~= values_view(before).push(xv));
            assert(values_view(v@) =~= Seq::new((i + 1) as nat, |k: int| JsonView::Str(items@[k]@)));
        }
        i += 1;
    }
    Json::array(v)
}

/// The data of a `task_done` event.
pub fn task_done_data(summary: &str, success: bool) -> (r: Json)
    ensures
        r@ == JsonView::Object(
            seq![("summary"@, JsonView::Str(summary@)), ("success"@, JsonView::Bool(success))],
        ),
{
    let mut e: Vec<(String, Json)> = Vec::new();
    e.push(entry("summary", Json::string(summary)));
    e.push(entry("success", Json::Bool(success)));
    let r = Json::object(e);
    proof {
        assert(r@->Object_0 =~= seq![("summary"@, JsonView::Str(summary@)), ("success"@, JsonView::Bool(success))]);
    }
    r
}

/// The data of a `summarization` event.
pub fn summarization_data(iteration: u32, tokens_before: u32, tokens_after: u32) -> (r: Json)
    ensures
        r@ == JsonView::Object(
            seq![
                ("iteration"@, JsonView::Number(dec(iteration as nat))),
                ("tokens_before"@, JsonView::Number(dec(tokens_before as nat))),
                ("tokens_after"@, JsonView::Number(dec(tokens_after as nat))),
            ],
        ),
{
    let mut e: Vec<(String, Json)> = Vec::new();
    e.push(entry("iteration", Json::unsigned(iteration as u64)));
    e.push(entry("tokens_before", Json::unsigned(tokens_before as u64)));
    e.push(entry("tokens_after", Json::unsigned(tokens_after as u64)));
    let r = Json::object(e);
    proof {
        assert(r@->Object_0 =~= seq![
            ("iteration"@, JsonView::Number(dec(iteration as nat))),
            ("tokens_before"@, JsonView::Number(dec(tokens_before as nat))),
            ("tokens_after"@, JsonView::Number(dec(tokens_after as nat))),
        ]);
    }
    r
}

/// The data of a `tool_call` event.
pub fn tool_call_data(iteration: u32, tool: &str, input: &str) -> (r: Json)
    ensures
        r@ == JsonView::Object(
            seq![
                ("iteration"@, JsonView::Number(dec(iteration as nat))),
                ("tool"@, JsonView::Str(tool@)),
                ("input"@, JsonView::Str(input@)),
            ],
        ),
{
    let mut e: Vec<(String, Json)> = Vec::new();
    e.push(entry("iteration", Json::unsigned(iteration as u64)));
    e.push(entry("tool", Json::string(tool)));
    e.push(entry("input", Json::string(input)));
    let r = Json::object(e);
    proof {
        assert(r@->Object_0 =~= seq![
            ("iteration"@, JsonView::Number(dec(iteration as nat))),
            ("tool"@, JsonView::Str(tool@)),
            ("input"@, JsonView::Str(input@)),
        ]);
    }
    r
}

/// The data of a `tool_result` event.
pub fn tool_result_data(iteration: u32, tool: &str, output: &str, duration_ms: u64, truncated: bool) -> (r: Json)
    ensures
        r@ == JsonView::Object(
            seq![
                ("iteration"@, JsonView::Number(dec(iteration as nat))),
                ("tool"@, JsonView::Str(tool@)),
                ("output"@, JsonView::Str(output@)),
                ("duration_ms"@, JsonView::Number(dec(duration_ms as nat))),
                ("truncated"@, JsonView::Bool(truncated)),
            ],
        ),
{
    let mut e: Vec<(String, Json)> = Vec::new();
    e.push(entry("iteration", Json::unsigned(iteration as u64)));
    e.push(entry("tool", Json::string(tool)));
    e.push(entry("output", Json::string(output)));
    e.push(entry("duration_ms", Json::unsigned(duration_ms)));
    e.push(entry("truncated", Json::Bool(truncated)));
    let r = Json::object(e);
    proof {
        assert(r@->Object_0 =~= seq![
            ("iteration"@, JsonView::Number(dec(iteration as nat))),
            ("tool"@, JsonView::Str(tool@)),
            ("output"@, JsonView::Str(output@)),
            ("duration_ms"@, JsonView::Number(dec(duration_ms as nat))),
            ("truncated"@, JsonView::Bool(truncated)),
        ]);
    }
    r
}

/// The data of an `llm_request` event.
pub fn llm_request_data(iteration: u32, input_tokens: u32) -> (r: Json)
    ensures
        r@ == JsonView::Object(
            seq![
                ("iteration"@, JsonView::Number(dec(iteration as nat))),
                ("input_tokens"@, JsonView::Number(dec(input_tokens as nat))),
            ],
        ),
{
    let mut e: Vec<(String, Json)> = Vec::new();
    e.push(entry("iteration", Json::unsigned(iteration as u64)));
    e.push(entry("input_tokens", Json::unsigned(input_tokens as u64)));
    let r = Json::object(e);
    proof {
        assert(r@->Object_0 =~= seq![
            ("iteration"@, JsonView::Number(dec(iteration as nat))),
            ("input_tokens"@, JsonView::Number(dec(input_tokens as nat))),
        ]);
    }
    r
}

/// The data of an `llm_response` event.
pub fn llm_response_data(iteration: u32, output_tokens: u32, reasoning: Option<&str>, tool_calls: &Vec<String>) -> (r: Json)
    ensures
        r@ == JsonView::Object(
            seq![
                ("iteration"@, JsonView::Number(dec(iteration as nat))),
                ("output_tokens"@, JsonView::Number(dec(output_tokens as nat))),
                ("reasoning"@, match reasoning {
                    Some(t) => JsonView::Str(t@),
                    None => JsonView::Null,
                }),
                ("tool_calls"@, JsonView::Array(Seq::new(tool_calls@.len(), |i: int| JsonView::Str(tool_calls@[i]@)))),
            ],
        ),
{
    let mut e: Vec<(String, Json)> = Vec::new();
    e.push(entry("iteration", Json::unsigned(iteration as u64)));
    e.push(entry("output_tokens", Json::unsigned(output_tokens as u64)));
    e.push(entry("reasoning", match reasoning {
        Some(t) => Json::string(t),
        None => Json::Null,
    }));
    e.push(entry("tool_calls", string_array(tool_calls)));
    let r = Json::object(e);
    proof {
        assert(r@->Object_0 =~= seq![
            ("iteration"@, JsonView::Number(dec(iteration as nat))),
            ("output_tokens"@, JsonView::Number(dec(output_tokens as nat))),
            ("reasoning"@, match reasoning {
                Some(t) => JsonView::Str(t@),
                None => JsonView::Null,
            }),
            ("tool_calls"@, JsonView::Array(Seq::new(tool_calls@.len(), |i: int| JsonView::Str(tool_calls@[i]@)))),
        ]);
    }
    r
}

/// The data of a `permission_denied` event.
pub fn permission_denied_data(iteration: u32, tool: &str, path: &str, operations: &Vec<String>) -> (r: Json)
    ensures
        r@ == JsonView::Object(
            seq![
                ("iteration"@, JsonView::Number(dec(iteration as nat))),
                ("tool"@, JsonView::Str(tool@)),
                ("path"@, JsonView::Str(path@)),
                ("operations"@, JsonView::Array(Seq::new(operations@.len(), |i: int| JsonView::Str(operations@[i]@)))),
            ],
        ),
{
    let mut e: Vec<(String, Json)> = Vec::new();
    e.push(entry("iteration", Json::unsigned(iteration as u64)));
    e.push(entry("tool", Json::string(tool)));
    e.push(entry("path", Json::string(path)));
    e.push(entry("operations", string_array(operations)));
    let r = Json::object(e);
    proof {
        assert(r@->Object_0 =~= seq![
            ("iteration"@, JsonView::Number(dec(iteration as nat))),
            ("tool"@, JsonView::Str(tool@)),
            ("path"@, JsonView::Str(path@)),
            ("operations"@, JsonView::Array(Seq::new(operations@.len(), |i: int| JsonView::Str(operations@[i]@)))),
        ]);
    }
    r
}

/// The data of a `plan` event.
pub fn plan_data(content: &str, todos_created: u64) -> (r: Json)
    ensures
        r@ == JsonView::Object(
            seq![
                ("content"@, JsonView::Str(content@)),
                ("todos_created"@, JsonView::Number(dec(todos_created as nat))),
            ],
        ),
{
    let mut e: Vec<(String, Json)> = Vec::new();
    e.push(entry("content", Json::string(content)));
    e.push(entry("todos_created", Json::unsigned(todos_created)));
    let r = Json::object(e);
    proof {
        assert(r@->Object_0 =~= seq![
            ("content"@, JsonView::Str(content@)),
            ("todos_created"@, JsonView::Number(dec(todos_created as nat))),
        ]);
    }
    r
}

/// The data of an `init` event.
pub fn init_data(agent_dir: &str, model: &str, tools: &Vec<String>, skills: &Vec<String>) -> (r: Json)
    ensures
        r@ == JsonView::Object(
            seq![
                ("agent_dir"@, JsonView::Str(agent_dir@)),
                ("model"@, JsonView::Str(model@)),
                ("tools"@, JsonView::Array(Seq::new(tools@.len(), |i: int| JsonView::Str(tools@[i]@)))),
                ("skills"@, JsonView::Array(Seq::new(skills@.len(), |i: int| JsonView::Str(skills@[i]@)))),
            ],
        ),
{
    let mut e: Vec<(String, Json)> = Vec::new();
    e.push(entry("agent_dir", Json::string(agent_dir)));
    e.push(entry("model", Json::string(model)));
    e.push(entry("tools", string_array(tools)));
    e.push(entry("skills", string_array(skills)));
    let r = Json::object(e);
    proof {
        assert(r@->Object_0 =~= seq![
            ("agent_dir"@, JsonView::Str(agent_dir@)),
            ("model"@, JsonView::Str(model@)),
            ("tools"@, JsonView::Array(Seq::new(tools@.len(), |i: int| JsonView::Str(tools@[i]@)))),
            ("skills"@, JsonView::Array(Seq::new(skills@.len(), |i: int| JsonView::Str(skills@[i]@)))),
        ]);
    }
    r
}

/// The data of a `todo_update` event.
pub fn todo_update_data(todos: Vec<Json>) -> (r: Json)
    ensures
        r@ == JsonView::Object(seq![("todos"@, JsonView::Array(values_view(todos@)))]),
{
    let mut e: Vec<(String, Json)> = Vec::new();
    let ghost tv = values_view(todos@);
    e.push(entry("todos", Json::array(todos)));
    let r = Json::object(e);
    proof {
        assert(r@->Object_0 =~= seq![("todos"@, JsonView::Array(tv))]);
    }
    r
}

proof fn lemma_set_entry_lookup(
    entries: Seq<(Seq<char>, JsonView)>,
    key: Seq<char>,
    value: JsonView,
    other: Seq<char>,
)
    ensures
        lookup(set_entry(entries, key, value), key) == Some(value),
        other != key ==> lookup(set_entry(entries, key, value), other) == lookup(entries, other),
    decreases entries.len(),
{
    let r = set_entry(entries, key, value);
    if entries.len() == 0 {
        assert(r == seq![(key, value)]);
        assert(r.drop_first() =~= Seq::<(Seq<char>, JsonView)>::empty());
        if other != key {
            assert(lookup(r, other) == lookup(r.drop_first(), other));
        }
    } else if entries[0].0 == key {
        assert(r == entries.update(0, (key, value)));
        assert(r[0] == (key, value));
        assert(r.drop_first() =~= entries.drop_first());
        if other != key {
            assert(lookup(r, other) == lookup(r.drop_first(), other));
            assert(lookup(entries, other) == lookup(entries.drop_first(), other));
        }
    } else {
        lemma_set_entry_lookup(entries.drop_first(), key, value, other);
        assert(r == seq![entries[0]] + set_entry(entries.drop_first(), key, value));
        assert(r[0] == entries[0]);
        assert(r.drop_first() =~= set_entry(entries.drop_first(), key, value));
    }
}

/// A trace event carries its name under `event`, its number under `seq` and
/// its timestamp under `timestamp`; every other key holds what the data holds
/// under it (the data's own entries when it is an object, else the data under
/// `data`).
pub proof fn lemma_trace_entry_fields(
    event: Seq<char>,
    data: JsonView,
    seq: u64,
    timestamp: Seq<char>,
    other: Seq<char>,
)
    ensures
        field(trace_entry_view(event, data, seq, timestamp), "event"@) == Some(JsonView::Str(event)),
        field(trace_entry_view(event, data, seq, timestamp), "seq"@) == Some(
            JsonView::Number(dec(seq as nat)),
        ),
        field(trace_entry_view(event, data, seq, timestamp), "timestamp"@) == Some(
            JsonView::Str(timestamp),
        ),
        other != "event"@ && other != "seq"@ && other != "timestamp"@ ==> field(
            trace_entry_view(event, data, seq, timestamp),
            other,
        ) == lookup(data_entries(data), other),
{
    reveal_strlit("event");
    reveal_strlit("seq");
    reveal_strlit("timestamp");
    assert("seq"@.len() != "timestamp"@.len());
    assert("seq"@.len() != "event"@.len());
    assert("timestamp"@.len() != "event"@.len());
    let e0 = data_entries(data);
    let e1 = set_entry(e0, "seq"@, JsonView::Number(dec(seq as nat)));
    let e2 = set_entry(e1, "timestamp"@, JsonView::Str(timestamp));
    lemma_set_entry_lookup(e0, "seq"@, JsonView::Number(dec(seq as nat)), other);
    lemma_set_entry_lookup(e0, "seq"@, JsonView::Number(dec(seq as nat)), "timestamp"@);
    lemma_set_entry_lookup(e0, "seq"@, JsonView::Number(dec(seq as nat)), "event"@);
    lemma_set_entry_lookup(e1, "timestamp"@, JsonView::Str(timestamp), other);
    lemma_set_entry_lookup(e1, "timestamp"@, JsonView::Str(timestamp), "seq"@);
    lemma_set_entry_lookup(e1, "timestamp"@, JsonView::Str(timestamp), "event"@);
    lemma_set_entry_lookup(e2, "event"@, JsonView::Str(event), other);
    lemma_set_entry_lookup(e2, "event"@, JsonView::Str(event), "seq"@);
    lemma_set_entry_lookup(e2, "event"@, JsonView::Str(event), "timestamp"@);
}

/// The event logged after `k` earlier events on a fresh sequence: its number
/// (what `take` returns after `k` takes) is `k`; it carries the event's name
/// under `event`, `k` under `seq` and its timestamp under `timestamp`; every
/// other key holds what the data object holds under it, and data that is not
/// an object is carried whole under `data`.
pub proof fn lemma_kth_trace_event(
    k: nat,
    event: Seq<char>,
    data: JsonView,
    timestamp: Seq<char>,
    other: Seq<char>,
)
    requires
        k <= u64::MAX,
    ensures
        after_takes(0, k) == k,
        ({
            let o = trace_entry_view(event, data, after_takes(0, k), timestamp);
            &&& field(o, "event"@) == Some(JsonView::Str(event))
            &&& field(o, "seq"@) == Some(JsonView::Number(dec(k)))
            &&& field(o, "timestamp"@) == Some(JsonView::Str(timestamp))
            &&& (other != "event"@ && other != "seq"@ && other != "timestamp"@ ==> field(o, other)
                == match data {
                JsonView::Object(e) => lookup(e, other),
                _ => if other == "data"@ {
                    Some(data)
                } else {
                    None
                },
            })
        }),
{
    lemma_trace_numbers_count_up(k);
    let n = after_takes(0, k);
    lemma_trace_entry_fields(event, data, n, timestamp, other);
    match data {
        JsonView::Object(e) => {},
        _ => {
            let d = seq![("data"@, data)];
            assert(d.drop_first() =~= Seq::<(Seq<char>, JsonView)>::empty());
            if other != "data"@ {
                assert(lookup(d, other) == lookup(d.drop_first(), other));
            }
        },
    }
}

} // verus!
