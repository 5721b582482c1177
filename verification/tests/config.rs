use agent_runner::config::{
    default_execute_timeout, default_keep_tokens, default_max_iterations, default_max_tokens,
    default_tool_output_limit, default_trigger_tokens, default_trim_tokens, default_true,
    default_user_message_limit, max_tokens_setting, resolve_api_key, AgentConfig, Config,
    ConfigError, SummarizationConfig,
};
use agent_runner::provider::ProviderError;
use agent_runner::report::report_subject;

#[test]
fn documented_defaults() {
    let c = Config::default();
    assert!(c.mcp_servers.is_empty() && c.permissions.is_empty() && c.subagents.is_empty());
    assert_eq!(c.agent.max_iterations, 50);
    assert!(c.agent.plan_required);
    assert_eq!(c.agent.tool_output_token_limit, 20000);
    assert_eq!(c.agent.user_message_token_limit, 50000);
    assert_eq!(c.agent.execute_timeout_secs, 3600);
    assert!(!c.agent.execute_enabled);
    assert!(c.summarization.enabled);
    assert_eq!((c.summarization.trigger_tokens, c.summarization.keep_tokens, c.summarization.trim_tokens), (80000, 20000, 4000));
    let s = SummarizationConfig::default();
    assert!(s.model.is_none());
    let a = AgentConfig::default();
    assert_eq!(a.max_iterations, default_max_iterations());
    assert!(default_true());
    assert_eq!(
        (default_trigger_tokens(), default_keep_tokens(), default_trim_tokens(), default_max_tokens()),
        (80000, 20000, 4000, 4096)
    );
    assert_eq!((default_tool_output_limit(), default_user_message_limit(), default_execute_timeout()), (20000, 50000, 3600));
}

#[test]
fn api_key_selection() {
    let k = resolve_api_key("anthropic", Some("g".into()), Some("a".into()), None);
    assert_eq!(k.ok(), Some("g".to_string()));
    let k = resolve_api_key("anthropic", None, Some("a".into()), Some("o".into()));
    assert_eq!(k.ok(), Some("a".to_string()));
    let k = resolve_api_key("openai", None, Some("a".into()), Some("o".into()));
    assert_eq!(k.ok(), Some("o".to_string()));
    match resolve_api_key("mistral", None, Some("a".into()), Some("o".into())) {
        Err(e) => assert_eq!(e.message(), "Missing API key: LLM_API_KEY or MISTRAL_API_KEY"),
        Ok(_) => panic!("unknown provider got a key"),
    }
    match resolve_api_key("openai", None, Some("a".into()), None) {
        Err(ConfigError::MissingApiKey(m)) => assert_eq!(m, "LLM_API_KEY or OPENAI_API_KEY"),
        _ => panic!("missing key not reported"),
    }
}

#[test]
fn max_tokens_from_environment() {
    assert_eq!(max_tokens_setting(None), 4096);
    assert_eq!(max_tokens_setting(Some("1000".into())), 1000);
    assert_eq!(max_tokens_setting(Some("lots".into())), 4096);
    assert_eq!(max_tokens_setting(Some("99999999999".into())), 4096);
}

#[test]
fn error_messages() {
    assert_eq!(ConfigError::Io("x".into()).message(), "IO error: x");
    assert_eq!(ConfigError::Parse("y".into()).message(), "Parse error: y");
    assert_eq!(ConfigError::MissingEnv("LLM_MODEL".into()).message(), "Missing environment variable: LLM_MODEL");
    assert_eq!(ConfigError::MissingApiKey("k".into()).message(), "Missing API key: k");
    assert_eq!(ProviderError::Http("h".into()).message(), "HTTP error: h");
    assert_eq!(ProviderError::RateLimited.message(), "Rate limited");
    assert_eq!(ProviderError::Timeout.message(), "Request timed out");
    assert_eq!(ProviderError::Api("a".into()).message(), "API error: a");
    assert_eq!(report_subject("completed", 0), "Agent Report: completed (exit 0)");
}
