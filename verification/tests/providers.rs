use agent_runner::json::Json;
use agent_runner::provider::{anthropic, openai, Message, ToolCall, ToolDefinition};

fn obj(entries: Vec<(&str, Json)>) -> Json {
    Json::Object(entries.into_iter().map(|(k, v)| (k.to_string(), v)).collect())
}

fn s(t: &str) -> Json {
    Json::Str(t.to_string())
}

fn field<'a>(j: &'a Json, k: &str) -> &'a Json {
    j.get(k).unwrap()
}

#[test]
fn anthropic_groups_tool_results() {
    let call = ToolCall { id: "t1".into(), name: "ls".into(), arguments: obj(vec![("path", s("."))]) };
    let messages = vec![
        Message::system("be nice".into()),
        Message::user("hello".into()),
        Message::assistant(Some("looking".into()), vec![call]),
        Message::tool_result("t1".into(), "a\nb".into()),
        Message::tool_result("t2".into(), "c".into()),
        Message::user("thanks".into()),
    ];
    let (system, turns) = anthropic::convert_messages(&messages);
    assert_eq!(system.unwrap().as_str(), Some("be nice"));
    assert_eq!(turns.len(), 4);
    assert_eq!(field(&turns[0], "content").as_str(), Some("hello"));
    let blocks = field(&turns[1], "content").as_array().unwrap();
    assert_eq!(blocks.len(), 2);
    assert_eq!(field(&blocks[1], "type").as_str(), Some("tool_use"));
    assert_eq!(field(&blocks[1], "id").as_str(), Some("t1"));
    assert_eq!(field(&turns[2], "role").as_str(), Some("user"));
    let results = field(&turns[2], "content").as_array().unwrap();
    assert_eq!(results.len(), 2);
    assert_eq!(field(&results[1], "tool_use_id").as_str(), Some("t2"));
    assert_eq!(field(&turns[3], "content").as_str(), Some("thanks"));
}

#[test]
fn anthropic_reads_replies() {
    let reply = obj(vec![
        ("usage", obj(vec![("input_tokens", Json::Number("12".into())), ("output_tokens", Json::Number("5".into()))])),
        (
            "content",
            Json::Array(vec![
                obj(vec![("type", s("thinking")), ("thinking", s("hmm"))]),
                obj(vec![("type", s("text")), ("text", s("ok"))]),
                obj(vec![("type", s("tool_use")), ("id", s("x")), ("name", s("task_done")), ("input", obj(vec![]))]),
            ]),
        ),
    ]);
    let r = anthropic::parse_response(&reply);
    assert_eq!(r.content.as_deref(), Some("ok"));
    assert_eq!(r.reasoning.as_deref(), Some("hmm"));
    assert_eq!((r.usage.input_tokens, r.usage.output_tokens), (12, 5));
    assert_eq!(r.tool_calls.len(), 1);
    assert_eq!(r.tool_calls[0].name, "task_done");
    assert!(r.done);
    let empty = anthropic::parse_response(&obj(vec![]));
    assert!(empty.content.is_none() && empty.tool_calls.is_empty() && !empty.done);
    assert_eq!(empty.usage.input_tokens, 0);
}

#[test]
fn tools_are_written_per_api() {
    let tools = vec![ToolDefinition { name: "ls".into(), description: "List".into(), parameters: obj(vec![]) }];
    let a = anthropic::convert_tools(&tools);
    assert_eq!(field(&a[0], "name").as_str(), Some("ls"));
    assert!(a[0].get("input_schema").is_some());
    let o = openai::convert_tools(&tools);
    assert_eq!(field(&o[0], "type").as_str(), Some("function"));
    assert_eq!(field(field(&o[0], "function"), "description").as_str(), Some("List"));
}

#[test]
fn openai_messages_and_replies() {
    let call = ToolCall { id: "c1".into(), name: "grep".into(), arguments: obj(vec![]) };
    let m = Message::assistant(None, vec![call]);
    let j = openai::convert_message(&m, &vec!["{}".to_string()]);
    assert!(matches!(field(&j, "content"), Json::Null));
    let calls = field(&j, "tool_calls").as_array().unwrap();
    assert_eq!(field(field(&calls[0], "function"), "arguments").as_str(), Some("{}"));
    let t = openai::convert_message(&Message::tool_result("c1".into(), "out".into()), &vec![]);
    assert_eq!(field(&t, "tool_call_id").as_str(), Some("c1"));
    assert!(t.get("tool_calls").is_none());

    let reply = obj(vec![
        (
            "choices",
            Json::Array(vec![obj(vec![(
                "message",
                obj(vec![
                    ("content", s("hi")),
                    (
                        "tool_calls",
                        Json::Array(vec![obj(vec![
                            ("id", s("k")),
                            ("function", obj(vec![("name", s("task_done")), ("arguments", s("{\"summary\":\"x\"}"))])),
                        ])]),
                    ),
                ]),
            )])]),
        ),
        ("usage", obj(vec![("prompt_tokens", Json::Number("7".into())), ("completion_tokens", Json::Number("2".into()))])),
    ]);
    let texts = openai::arguments_texts(&reply);
    assert_eq!(texts, vec!["{\"summary\":\"x\"}".to_string()]);
    let r = openai::parse_response(&reply, vec![obj(vec![("summary", s("x"))])]);
    assert_eq!(r.content.as_deref(), Some("hi"));
    assert_eq!((r.usage.input_tokens, r.usage.output_tokens), (7, 2));
    assert_eq!(r.tool_calls[0].id, "k");
    assert!(r.done);
    assert!(r.reasoning.is_none());
}
