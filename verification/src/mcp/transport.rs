//! The MCP stdio transport: JSON-RPC requests framed with a `Content-Length`
//! header, and the reading of the replies.

use vstd::prelude::*;
use crate::json::{
    deep_copy, entries_view, entry, field, i64_of, lookup, opt_json, str_of, values_view, Json, JsonView,
};
use crate::text::{
    cat, cat3, chars_ends_with, chars_of, chars_starts_with, dec, fmt_i64, fmt_u64, int_dec,
    is_digit, is_whitespace, join, join_strings, lemma_dec_reads_back, lemma_line_end_bounds,
    line_end, lines, lines_of, owned, push_char, seq_ends_with, seq_starts_with, strip_cr, trim,
    trim_chars, unsigned_text_value, views,
};

verus! {

/// A tool that an MCP server offers.
pub struct McpTool {
    pub name: String,
    pub description: Option<String>,
    pub input_schema: Json,
}

/// The protocol version this client speaks.
pub open spec fn protocol_version() -> Seq<char> {
    "2024-11-05"@
}

/// The parameters of the `initialize` request.
pub open spec fn initialize_params_view() -> JsonView {
    JsonView::Object(
        seq![
            ("protocolVersion"@, JsonView::Str(protocol_version())),
            ("capabilities"@, JsonView::Object(Seq::empty())),
            (
                "clientInfo"@,
                JsonView::Object(
                    seq![("name"@, JsonView::Str("agent-runner"@)), ("version"@, JsonView::Str("0.1.0"@))],
                ),
            ),
        ],
    )
}

/// The parameters of the `initialize` request.
pub fn initialize_params() -> (r: Json)
    ensures
        r@ == initialize_params_view(),
{
    let mut info: Vec<(String, Json)> = Vec::new();
    info.push(entry("name", Json::string("agent-runner")));
    info.push(entry("version", Json::string("0.1.0")));
    let client_info = Json::object(info);
    let mut top: Vec<(String, Json)> = Vec::new();
    top.push(entry("protocolVersion", Json::string("2024-11-05")));
    top.push(entry("capabilities", Json::object(Vec::new())));
    top.push(entry("clientInfo", client_info));
    let r = Json::object(top);
    proof {
        assert(entries_view(Seq::<(String, Json)>::empty()) =~= Seq::empty());
        assert(client_info@->Object_0 =~= seq![("name"@, JsonView::Str("agent-runner"@)), ("version"@, JsonView::Str("0.1.0"@))]);
        assert(r@->Object_0 =~= initialize_params_view()->Object_0);
    }
    r
}

/// A JSON-RPC request: `jsonrpc`, `id`, `method`, and `params` when given.
pub open spec fn request_view(id: nat, method: Seq<char>, params: Option<JsonView>) -> JsonView {
    let base = seq![
        ("jsonrpc"@, JsonView::Str("2.0"@)),
        ("id"@, JsonView::Number(dec(id))),
        ("method"@, JsonView::Str(method)),
    ];
    JsonView::Object(
        match params {
            Some(p) => base.push(("params"@, p)),
            None => base,
        },
    )
}

/// A JSON-RPC notification: `jsonrpc`, `method`, and `params` when given.
pub open spec fn notification_view(method: Seq<char>, params: Option<JsonView>) -> JsonView {
    let base = seq![("jsonrpc"@, JsonView::Str("2.0"@)), ("method"@, JsonView::Str(method))];
    JsonView::Object(
        match params {
            Some(p) => base.push(("params"@, p)),
            None => base,
        },
    )
}

/// The request `method` with number `id`.
pub fn request(id: u64, method: &str, params: Option<Json>) -> (r: Json)
    ensures
        r@ == request_view(id as nat, method@, opt_json(params)),
{
    let mut e: Vec<(String, Json)> = Vec::new();
    e.push(entry("jsonrpc", Json::string("2.0")));
    e.push(entry("id", Json::unsigned(id)));
    e.push(entry("method", Json::string(method)));
    match params {
        Some(p) => e.push(entry("params", p)),
        None => {},
    }
    let r = Json::object(e);
    proof {
        assert(r@->Object_0 =~= request_view(id as nat, method@, opt_json(params))->Object_0);
    }
    r
}

/// The notification `method`.
pub fn notification(method: &str, params: Option<Json>) -> (r: Json)
    ensures
        r@ == notification_view(method@, opt_json(params)),
{
    let mut e: Vec<(String, Json)> = Vec::new();
    e.push(entry("jsonrpc", Json::string("2.0")));
    e.push(entry("method", Json::string(method)));
    match params {
        Some(p) => e.push(entry("params", p)),
        None => {},
    }
    let r = Json::object(e);
    proof {
        assert(r@->Object_0 =~= notification_view(method@, opt_json(params))->Object_0);
    }
    r
}

/// The parameters of a `tools/call` request.
pub fn tool_call_params(name: &str, arguments: Json) -> (r: Json)
    ensures
        r@ == JsonView::Object(seq![("name"@, JsonView::Str(name@)), ("arguments"@, arguments@)]),
{
    let mut e: Vec<(String, Json)> = Vec::new();
    e.push(entry("name", Json::string(name)));
    e.push(entry("arguments", arguments));
    let r = Json::object(e);
    proof {
        assert(r@->Object_0 =~= seq![("name"@, JsonView::Str(name@)), ("arguments"@, arguments@)]);
    }
    r
}

/// The header that announces a body of `n` bytes, ending with a blank line.
pub open spec fn frame_header(n: nat) -> Seq<char> {
    "Content-Length: "@ + dec(n) + "\r\n\r\n"@
}

/// A message framed for the wire: a `Content-Length` header with the body's
/// size in bytes, a blank line, then the body.
pub open spec fn framed(body: Seq<char>) -> Seq<char> {
    frame_header((vstd::utf8::encode_utf8(body).len() as usize) as nat) + body
}

/// Frames a serialized message.
pub fn frame(body: &str) -> (r: String)
    ensures
        r@ == framed(body@),
{
    let mut r = cat3("Content-Length: ", fmt_u64(body.len() as u64).as_str(), "\r\n\r\n");
    r.append(body);
    r
}

/// The largest header accepted from a server, in bytes.
pub open spec fn max_header_len() -> nat {
    1024
}

/// The length in bytes of a header read so far, as `str::len` gives it.
pub open spec fn header_bytes(header: Seq<char>) -> nat {
    (crate::summarization::byte_len(header) as usize) as nat
}

/// How reading a header goes after one more byte.
pub enum HeaderProgress {
    /// The header is complete (it ends with a blank line).
    Complete,
    /// More bytes are needed.
    Incomplete,
    /// The header is too long.
    TooLong,
}

/// Adds one byte of a reply's header (each byte is one character, as `u8 as
/// char` maps it) and tells whether the header is complete, needs more, or
/// has grown longer than the limit in bytes.
pub fn push_header_byte(header: &mut String, byte: u8) -> (r: HeaderProgress)
    ensures
        final(header)@ == old(header)@.push(byte as char),
        seq_ends_with(final(header)@, seq!['\r', '\n', '\r', '\n']) ==> r is Complete,
        !seq_ends_with(final(header)@, seq!['\r', '\n', '\r', '\n']) && header_bytes(
            final(header)@,
        ) > max_header_len() ==> r is TooLong,
        !seq_ends_with(final(header)@, seq!['\r', '\n', '\r', '\n']) && header_bytes(
            final(header)@,
        ) <= max_header_len() ==> r is Incomplete,
{
    push_char(header, byte as char);
    let cs = chars_of(header.as_str());
    let end = vec!['\r', '\n', '\r', '\n'];
    proof {
        assert(end@ =~= seq!['\r', '\n', '\r', '\n']);
    }
    if chars_ends_with(&cs, &end) {
        HeaderProgress::Complete
    } else if header.as_str().len() > 1024 {
        HeaderProgress::TooLong
    } else {
        HeaderProgress::Incomplete
    }
}

/// `s` with every leading copy of `p` removed (`str::trim_start_matches`).
pub open spec fn strip_prefixes(s: Seq<char>, p: Seq<char>) -> Seq<char>
    decreases s.len(),
{
    if p.len() > 0 && seq_starts_with(s, p) {
        strip_prefixes(s.skip(p.len() as int), p)
    } else {
        s
    }
}

/// The first line that starts with `p`.
pub open spec fn first_line_with(ls: Seq<Seq<char>>, p: Seq<char>) -> Option<Seq<char>>
    decreases ls.len(),
{
    if ls.len() == 0 {
        None
    } else if seq_starts_with(ls[0], p) {
        Some(ls[0])
    } else {
        first_line_with(ls.drop_first(), p)
    }
}

/// The body size a header announces: the first line starting with
/// `Content-Length:`, that label stripped (as often as it repeats), trimmed,
/// read as an unsigned number that fits in a `usize`.
pub open spec fn announced_length(header: Seq<char>) -> Option<nat> {
    match first_line_with(lines(header), "Content-Length:"@) {
        Some(l) => match unsigned_text_value(trim(strip_prefixes(l, "Content-Length:"@))) {
            Some(n) => if n <= usize::MAX {
                Some(n)
            } else {
                None
            },
            None => None,
        },
        None => None,
    }
}

/// The body size that a reply's header announces.
pub fn content_length(header: &str) -> (r: Result<usize, String>)
    ensures
        match announced_length(header@) {
            Some(n) => r == Ok::<usize, String>(n as usize),
            None => r matches Err(e) && e@ == "Missing Content-Length in MCP response header: "@
                + header@,
        },
{
    let ls = lines_of(header);
    let label = chars_of("Content-Length:");
    proof {
        reveal_strlit("Content-Length:");
    }
    let mut i: usize = 0;
    let ghost all = views(ls@);
    proof {
        assert(all.skip(0) =~= all);
    }
    while i < ls.len()
        invariant
            i <= ls@.len(),
            all == views(ls@),
            all == lines(header@),
            label@ == "Content-Length:"@,
            label@.len() > 0,
            first_line_with(all, label@) == first_line_with(all.skip(i as int), label@),
        decreases ls@.len() - i,
    {
        proof {
            assert(all.skip(i as int).drop_first() =~= all.skip(i + 1));
            assert(all.skip(i as int)[0] == ls@[i as int]@);
        }
        let l = chars_of(ls[i].as_str());
        if chars_starts_with(&l, &label) {
            let stripped = strip_all(&l, &label);
            let t = trim_chars(&stripped);
            let ts = crate::text::string_of(&t);
            match crate::text::parse_u64(ts.as_str()) {
                Some(v) => if (v as u128) <= (usize::MAX as u128) {
                    return Ok(v as usize);
                } else {
                    return Err(cat("Missing Content-Length in MCP response header: ", header));
                },
                None => return Err(cat("Missing Content-Length in MCP response header: ", header)),
            }
        }
        i += 1;
    }
    proof {
        assert(all.skip(i as int).len() == 0);
    }
    Err(cat("Missing Content-Length in MCP response header: ", header))
}

fn strip_all(s: &Vec<char>, p: &Vec<char>) -> (r: Vec<char>)
    requires
        p@.len() > 0,
    ensures
        r@ == strip_prefixes(s@, p@),
{
    let mut i: usize = 0;
    proof {
        assert(s@.skip(0) =~= s@);
    }
    while i <= s.len() && crate::text::chars_occur_at(s, p, i)
        invariant
            i <= s@.len(),
            p@.len() > 0,
            strip_prefixes(s@, p@) == strip_prefixes(s@.skip(i as int), p@),
        decreases s@.len() - i,
    {
        proof {
            let t = s@.skip(i as int);
            assert(t.take(p@.len() as int) =~= s@.subrange(i as int, i + p@.len()));
            assert(t.skip(p@.len() as int) =~= s@.skip(i + p@.len()));
        }
        i = i + p.len();
    }
    proof {
        let t = s@.skip(i as int);
        if seq_starts_with(t, p@) {
            assert(t.take(p@.len() as int) =~= s@.subrange(i as int, i + p@.len()));
        }
    }
    let mut r: Vec<char> = Vec::new();
    let mut k = i;
    while k < s.len()
        invariant
            i <= k <= s@.len(),
            r@ == s@.subrange(i as int, k as int),
        decreases s@.len() - k,
    {
        r.push(s[k]);
        proof {
            assert(s@.subrange(i as int, k + 1) =~= s@.subrange(i as int, k as int).push(s@[k as int]));
        }
        k += 1;
    }
    proof {
        assert(r@ =~= s@.skip(i as int));
    }
    r
}

/// What a reply yields: its `result`, or the error it reports (`MCP error
/// (code c): message`, with code -1 and message `Unknown error` when those are
/// missing), or an error when it has neither.
pub open spec fn reply_outcome(reply: JsonView) -> Result<JsonView, Seq<char>> {
    match field(reply, "error"@) {
        Some(err) => {
            let msg = match str_of(field(err, "message"@)) {
                Some(m) => m,
                None => "Unknown error"@,
            };
            let code = match i64_of(field(err, "code"@)) {
                Some(c) => c,
                None => -1,
            };
            Err("MCP error (code "@ + int_dec(code) + "): "@ + msg)
        },
        None => match field(reply, "result"@) {
            Some(r) => Ok(r),
            None => Err("Missing result in MCP response"@),
        },
    }
}

/// The result of a reply, or its error.
pub fn reply_result(reply: &Json) -> (r: Result<Json, String>)
    ensures
        match reply_outcome(reply@) {
            Ok(v) => r matches Ok(j) && j@ == v,
            Err(m) => r matches Err(e) && e@ == m,
        },
{
    match reply.get("error") {
        Some(err) => {
            let msg = match err.get("message") {
                Some(m) => match m.as_str() {
                    Some(s) => s,
                    None => "Unknown error",
                },
                None => "Unknown error",
            };
            let code: i64 = match err.get("code") {
                Some(c) => match c.as_i64() {
                    Some(n) => n,
                    None => -1,
                },
                None => -1,
            };
            let mut e = cat3("MCP error (code ", fmt_i64(code).as_str(), "): ");
            e.append(msg);
            Err(e)
        },
        None => match reply.get("result") {
            Some(res) => Ok(deep_copy(res)),
            None => Err(owned("Missing result in MCP response")),
        },
    }
}

/// The texts of the items of a `content` list that carry a `text` string.
pub open spec fn item_texts(items: Seq<JsonView>) -> Seq<Seq<char>>
    decreases items.len(),
{
    if items.len() == 0 {
        Seq::empty()
    } else {
        let rest = item_texts(items.drop_last());
        match str_of(field(items.last(), "text"@)) {
            Some(t) => rest.push(t),
            None => rest,
        }
    }
}

/// The text of a `tools/call` result: the texts of its `content` items, one
/// per line; `None` when it has no `content` list (the caller then uses the
/// result's JSON text).
pub fn tool_call_text(result: &Json) -> (r: Option<String>)
    ensures
        match field(result@, "content"@) {
            Some(JsonView::Array(items)) => r matches Some(t) && t@ == join(item_texts(items), "\n"@),
            _ => r is None,
        },
{
    match result.get("content") {
        Some(c) => match c.as_array() {
            Some(items) => {
                let mut texts: Vec<String> = Vec::new();
                let mut i: usize = 0;
                while i < items.len()
                    invariant
                        i <= items@.len(),
                        views(texts@) == item_texts(values_view(items@).take(i as int)),
                    decreases items@.len() - i,
                {
                    proof {
                        assert(values_view(items@).take(i + 1).drop_last() =~= values_view(
                            items@,
                        ).take(i as int));
                    }
                    let ghost before = texts@;
                    match items[i].get("text") {
                        Some(t) => match t.as_str() {
                            Some(s) => {
                                texts.push(owned(s));
                                proof {
                                    assert(views(texts@) =~= views(before).push(s@));
                                }
                            },
                            None => {},
                        },
                        None => {},
                    }
                    i += 1;
                }
                proof {
                    assert(values_view(items@).take(items@.len() as int) =~= values_view(items@));
                }
                Some(join_strings(&texts, "\n"))
            },
            None => None,
        },
        None => None,
    }
}

/// The `tools` list of a `tools/list` result (an empty list when missing).
pub fn tools_list(result: &Json) -> (r: Json)
    ensures
        match field(result@, "tools"@) {
            Some(t) => r@ == t,
            None => r@ == JsonView::Array(Seq::empty()),
        },
{
    match result.get("tools") {
        Some(t) => deep_copy(t),
        None => {
            let r = Json::array(Vec::new());
            proof {
                assert(values_view(Seq::<Json>::empty()) =~= Seq::empty());
            }
            r
        },
    }
}

proof fn lemma_line_end_at(s: Seq<char>, i: int, p: int)
    requires
        0 <= i <= p < s.len(),
        s[p] == '\n',
        forall|k: int| i <= k < p ==> s[k] != '\n',
    ensures
        line_end(s, i) == p,
    decreases p - i,
{
    if i < p {
        lemma_line_end_at(s, i + 1, p);
    }
}

/// What a frame announces is what the reader takes: the header written for a
/// body of `n` bytes (any size a `usize` holds) announces `n`, and the
/// header read byte by byte is complete exactly at its end.
pub proof fn lemma_frame_header_round_trip(n: nat)
    requires
        n <= usize::MAX,
    ensures
        announced_length(frame_header(n)) == Some(n),
        seq_ends_with(frame_header(n), seq!['\r', '\n', '\r', '\n']),
        forall|k: int|
            0 <= k < frame_header(n).len() ==> !seq_ends_with(
                #[trigger] frame_header(n).take(k),
                seq!['\r', '\n', '\r', '\n'],
            ),
{
    reveal_strlit("Content-Length: ");
    reveal_strlit("Content-Length:");
    reveal_strlit("\r\n\r\n");
    lemma_dec_reads_back(n);
    let label = "Content-Length:"@;
    let d = dec(n);
    let h = frame_header(n);
    let line = "Content-Length: "@ + d;
    assert(h =~= line + seq!['\r', '\n', '\r', '\n']);
    let p: int = line.len() as int + 1;
    assert(h[p] == '\n');
    assert forall|k: int| 0 <= k < p implies h[k] != '\n' by {
        if k < 16 {
        } else if k < line.len() {
            assert(h[k] == d[k - 16]);
            assert(is_digit(d[k - 16]));
        } else {
            assert(h[k] == '\r');
        }
    }
    lemma_line_end_at(h, 0, p);
    lemma_line_end_bounds(h, 0);
    assert(h.subrange(0, p) =~= line.push('\r'));
    assert(strip_cr(h.subrange(0, p)) =~= line);
    assert(lines(h)[0] == line);
    assert(lines(h).len() > 0);
    assert(line.take(label.len() as int) =~= label);
    assert(first_line_with(lines(h), label) == Some(line));
    let rest = line.skip(label.len() as int);
    assert(rest =~= seq![' '] + d);
    assert(!seq_starts_with(rest, label)) by {
        assert(rest[0] == ' ');
        assert(label[0] == 'C');
        if label.len() <= rest.len() {
            assert(rest.take(label.len() as int)[0] == ' ');
        }
    }
    assert(strip_prefixes(rest, label) == rest);
    assert(strip_prefixes(line, label) == rest);
    assert(is_whitespace(rest[0]));
    assert(rest.drop_first() =~= d);
    assert(!is_whitespace(d[0]));
    assert(!is_whitespace(d.last()));
    assert(trim(d) == d);
    assert(trim(rest) == d);
    assert forall|k: int| 0 <= k < h.len() implies !seq_ends_with(
        #[trigger] h.take(k),
        seq!['\r', '\n', '\r', '\n'],
    ) by {
        if seq_ends_with(h.take(k), seq!['\r', '\n', '\r', '\n']) {
            let t = h.take(k);
            assert(t.skip(t.len() - 4) =~= seq!['\r', '\n', '\r', '\n']);
            assert(t[k - 3] == '\n');
            assert(h[k - 3] == '\n');
            assert(t[k - 1] == '\n');
            assert(h[k - 1] == '\n');
            if k - 1 < p {
            } else if k - 1 == p {
                assert(0 <= k - 3 < p);
            } else if k - 1 == p + 1 {
                assert(h[p + 1] == '\r');
            } else {
                assert(k - 1 == p + 2);
            }
        }
    }
    assert(h.skip(h.len() - 4) =~= seq!['\r', '\n', '\r', '\n']);
}

/// A request carries its version, number and method, and the parameters it
/// was given (none when it was given none); a notification carries its
/// method and parameters likewise, and no number.
pub proof fn lemma_request_fields(id: nat, method: Seq<char>, params: Option<JsonView>)
    ensures
        field(request_view(id, method, params), "jsonrpc"@) == Some(JsonView::Str("2.0"@)),
        field(request_view(id, method, params), "id"@) == Some(JsonView::Number(dec(id))),
        field(request_view(id, method, params), "method"@) == Some(JsonView::Str(method)),
        field(request_view(id, method, params), "params"@) == params,
        field(notification_view(method, params), "method"@) == Some(JsonView::Str(method)),
        field(notification_view(method, params), "params"@) == params,
        field(notification_view(method, params), "id"@) is None,
{
    reveal_strlit("jsonrpc");
    reveal_strlit("id");
    reveal_strlit("method");
    reveal_strlit("params");
    reveal_with_fuel(lookup, 5);
    assert("jsonrpc"@.len() != "id"@.len());
    assert("jsonrpc"@.len() != "method"@.len());
    assert("jsonrpc"@.len() != "params"@.len());
    assert("id"@.len() != "method"@.len());
    assert("id"@.len() != "params"@.len());
    assert("method"@[0] != "params"@[0]);
}

} // verus!
