use agent_runner::json::Json;
use agent_runner::mcp::transport::{
    content_length, frame, initialize_params, notification, push_header_byte, reply_result,
    request, tool_call_params, tool_call_text, tools_list, HeaderProgress, McpTool,
};
use agent_runner::mcp::{check_protocol, missing_server, tool_definition, ToolRouter};

fn obj(entries: Vec<(&str, Json)>) -> Json {
    Json::Object(entries.into_iter().map(|(k, v)| (k.to_string(), v)).collect())
}

fn s(t: &str) -> Json {
    Json::Str(t.to_string())
}

#[test]
fn framing_counts_bytes() {
    assert_eq!(frame("{}"), "Content-Length: 2\r\n\r\n{}");
    assert_eq!(frame("é"), "Content-Length: 2\r\n\r\né");
}

#[test]
fn header_reading() {
    let mut h = String::new();
    let mut last = HeaderProgress::Incomplete;
    for b in b"Content-Length: 12\r\n\r\n" {
        last = push_header_byte(&mut h, *b);
    }
    assert!(matches!(last, HeaderProgress::Complete));
    assert_eq!(content_length(&h), Ok(12));
    assert_eq!(content_length("X: 1\r\nContent-Length:  7 \r\n\r\n"), Ok(7));
    assert_eq!(
        content_length("X: 1\r\n\r\n"),
        Err("Missing Content-Length in MCP response header: X: 1\r\n\r\n".to_string())
    );
    let mut long = String::new();
    let mut p = HeaderProgress::Incomplete;
    for _ in 0..1025 {
        p = push_header_byte(&mut long, b'a');
    }
    assert!(matches!(p, HeaderProgress::TooLong));
}

#[test]
fn replies_and_errors() {
    let ok = obj(vec![("jsonrpc", s("2.0")), ("result", obj(vec![("x", Json::Bool(true))]))]);
    assert!(reply_result(&ok).is_ok());
    let err = obj(vec![("error", obj(vec![("code", Json::Number("-32601".into())), ("message", s("no such method"))]))]);
    assert_eq!(reply_result(&err).err(), Some("MCP error (code -32601): no such method".to_string()));
    let bare = obj(vec![("error", Json::Null)]);
    assert_eq!(reply_result(&bare).err(), Some("MCP error (code -1): Unknown error".to_string()));
    assert_eq!(reply_result(&obj(vec![])).err(), Some("Missing result in MCP response".to_string()));
}

#[test]
fn tool_results_text() {
    let r = obj(vec![(
        "content",
        Json::Array(vec![obj(vec![("type", s("text")), ("text", s("a"))]), obj(vec![("type", s("image"))]), obj(vec![("text", s("b"))])]),
    )]);
    assert_eq!(tool_call_text(&r), Some("a\nb".to_string()));
    assert_eq!(tool_call_text(&obj(vec![("other", Json::Null)])), None);
    assert!(matches!(tools_list(&obj(vec![])), Json::Array(ref v) if v.is_empty()));
}

#[test]
fn requests_and_protocol() {
    let r = request(3, "tools/list", None);
    assert_eq!(r.get("id").and_then(|v| v.as_u64()), Some(3));
    assert!(r.get("params").is_none());
    let n = notification("notifications/initialized", None);
    assert!(n.get("id").is_none());
    let p = initialize_params();
    assert_eq!(p.get("protocolVersion").and_then(|v| v.as_str()), Some("2024-11-05"));
    let c = tool_call_params("search", obj(vec![]));
    assert_eq!(c.get("name").and_then(|v| v.as_str()), Some("search"));
    assert!(check_protocol("fs", &obj(vec![("protocolVersion", s("2024-11-05"))])).is_ok());
    assert!(check_protocol("fs", &obj(vec![])).is_ok());
    assert_eq!(
        check_protocol("fs", &obj(vec![("protocolVersion", s("2025-01-01"))])).err(),
        Some("MCP server 'fs' returned protocol version '2025-01-01', expected '2024-11-05'".to_string())
    );
}

#[test]
fn routes_read_back() {
    let mut r = ToolRouter::new();
    assert_eq!(r.server_for("search").err(), Some("No MCP server found for tool 'search'".to_string()));
    r.register("search".into(), "web".into());
    r.register("read".into(), "fs".into());
    r.register("search".into(), "web2".into());
    assert_eq!(r.server_for("search").ok(), Some("web2".to_string()));
    assert_eq!(r.server_for("read").ok(), Some("fs".to_string()));
    r.clear();
    assert!(r.server_for("read").is_err());
    assert_eq!(missing_server("fs"), "MCP server 'fs' not found");
    let t = McpTool { name: "search".into(), description: None, input_schema: obj(vec![]) };
    let d = tool_definition(&t);
    assert_eq!((d.name.as_str(), d.description.as_str()), ("search", ""));
}
