//! Agent configuration: the settings read from `agent-runner.json` and the
//! environment, with their defaults.

use vstd::prelude::*;
use crate::text::{cat, cat3, chars_eq, chars_of, owned, parse_u32, str_eq, unsigned_text_value, views};

verus! {

/// When and how the conversation history is compacted.
pub struct SummarizationConfig {
    pub enabled: bool,
    pub model: Option<String>,
    pub trigger_tokens: u32,
    pub keep_tokens: u32,
    pub trim_tokens: u32,
}

impl Default for SummarizationConfig {
    fn default() -> (r: Self)
        ensures
            r.enabled,
            r.model is None,
            r.trigger_tokens == 80000,
            r.keep_tokens == 20000,
            r.trim_tokens == 4000,
    {
        SummarizationConfig {
            enabled: true,
            model: None,
            trigger_tokens: 80000,
            keep_tokens: 20000,
            trim_tokens: 4000,
        }
    }
}

/// The default of the boolean settings that are on unless turned off.
pub fn default_true() -> (r: bool)
    ensures
        r,
{
    true
}

/// The default token count above which the history is summarized.
pub fn default_trigger_tokens() -> (r: u32)
    ensures
        r == 80000,
{
    80000
}

/// The default token budget of the messages kept verbatim by a summary.
pub fn default_keep_tokens() -> (r: u32)
    ensures
        r == 20000,
{
    20000
}

/// The default size limit asked of a summary, in tokens.
pub fn default_trim_tokens() -> (r: u32)
    ensures
        r == 4000,
{
    4000
}

/// The default completion budget of an LLM call.
pub fn default_max_tokens() -> (r: u32)
    ensures
        r == 4096,
{
    4096
}

/// A permission rule: for the listed operations on the listed paths, allow or deny.
pub struct FilesystemPermission {
    pub operations: Vec<String>,
    pub paths: Vec<String>,
    pub mode: String,
}

/// How to start an MCP server process.
pub struct McpServerConfig {
    pub command: String,
    pub args: Vec<String>,
    /// The server's environment variables, each name once (see
    /// [`set_named_entry`]).
    pub env: Vec<(String, String)>,
}

/// A sub-agent that tasks may be delegated to.
pub struct SubAgentConfig {
    pub name: String,
    pub description: String,
    pub system_prompt: String,
    pub model: Option<String>,
    pub tools: Option<Vec<String>>,
    pub skills: Option<Vec<String>>,
    pub permissions: Option<Vec<FilesystemPermission>>,
}

/// Limits and switches of the agent loop.
pub struct AgentConfig {
    pub max_iterations: u32,
    pub plan_required: bool,
    pub tool_output_token_limit: u32,
    pub user_message_token_limit: u32,
    pub execute_timeout_secs: u64,
    pub execute_enabled: bool,
}

impl Default for AgentConfig {
    fn default() -> (r: Self)
        ensures
            r.max_iterations == 50,
            r.plan_required,
            r.tool_output_token_limit == 20000,
            r.user_message_token_limit == 50000,
            r.execute_timeout_secs == 3600,
            !r.execute_enabled,
    {
        AgentConfig {
            max_iterations: 50,
            plan_required: true,
            tool_output_token_limit: 20000,
            user_message_token_limit: 50000,
            execute_timeout_secs: 3600,
            execute_enabled: false,
        }
    }
}

/// The default iteration limit of the agent loop.
pub fn default_max_iterations() -> (r: u32)
    ensures
        r == 50,
{
    50
}

/// The default token limit of one tool output.
pub fn default_tool_output_limit() -> (r: u32)
    ensures
        r == 20000,
{
    20000
}

/// The default token limit of the user message.
pub fn default_user_message_limit() -> (r: u32)
    ensures
        r == 50000,
{
    50000
}

/// The default timeout of the `execute` tool, in seconds.
pub fn default_execute_timeout() -> (r: u64)
    ensures
        r == 3600,
{
    3600
}

/// The contents of `agent-runner.json`.
pub struct Config {
    /// The MCP servers by name, each name once (see [`set_named_entry`]).
    pub mcp_servers: Vec<(String, McpServerConfig)>,
    pub summarization: SummarizationConfig,
    pub permissions: Vec<FilesystemPermission>,
    pub subagents: Vec<SubAgentConfig>,
    pub agent: AgentConfig,
}

impl Default for Config {
    fn default() -> (r: Self)
        ensures
            r.mcp_servers@.len() == 0,
            r.permissions@.len() == 0,
            r.subagents@.len() == 0,
            r.summarization.enabled,
            r.summarization.model is None,
            r.summarization.trigger_tokens == 80000,
            r.summarization.keep_tokens == 20000,
            r.summarization.trim_tokens == 4000,
            r.agent.max_iterations == 50,
            r.agent.plan_required,
            r.agent.tool_output_token_limit == 20000,
            r.agent.user_message_token_limit == 50000,
            r.agent.execute_timeout_secs == 3600,
            !r.agent.execute_enabled,
    {
        Config {
            mcp_servers: Vec::new(),
            summarization: SummarizationConfig::default(),
            permissions: Vec::new(),
            subagents: Vec::new(),
            agent: AgentConfig::default(),
        }
    }
}

/// Why a configuration could not be loaded.
pub enum ConfigError {
    Io(String),
    Parse(String),
    MissingEnv(String),
    MissingApiKey(String),
}

/// The text of a [`ConfigError`].
pub open spec fn config_error_text(e: ConfigError) -> Seq<char> {
    match e {
        ConfigError::Io(m) => "IO error: "@ + m@,
        ConfigError::Parse(m) => "Parse error: "@ + m@,
        ConfigError::MissingEnv(m) => "Missing environment variable: "@ + m@,
        ConfigError::MissingApiKey(m) => "Missing API key: "@ + m@,
    }
}

impl ConfigError {
    /// The error's message, as it is displayed.
    pub fn message(&self) -> (r: String)
        ensures
            r@ == config_error_text(*self),
    {
        match self {
            ConfigError::Io(m) => cat("IO error: ", m.as_str()),
            ConfigError::Parse(m) => cat("Parse error: ", m.as_str()),
            ConfigError::MissingEnv(m) => cat("Missing environment variable: ", m.as_str()),
            ConfigError::MissingApiKey(m) => cat("Missing API key: ", m.as_str()),
        }
    }
}

/// What `str::to_uppercase` returns for a string.
pub uninterp spec fn uppercase(s: Seq<char>) -> Seq<char>;

/// `s.to_uppercase()` (std's Unicode upper-casing): its result is named
/// [`uppercase`] of the argument; nothing more is claimed of it.
#[verifier::external_body]
fn to_uppercase(s: &str) -> (r: String)
    ensures
        r@ == uppercase(s@),
{
    s.to_uppercase()
}

/// The API key that the settings select: `LLM_API_KEY` when set, else the
/// key variable of the provider (`ANTHROPIC_API_KEY` for `anthropic`,
/// `OPENAI_API_KEY` for `openai`).
pub open spec fn api_key_choice(
    provider: Seq<char>,
    llm_api_key: Option<Seq<char>>,
    anthropic_api_key: Option<Seq<char>>,
    openai_api_key: Option<Seq<char>>,
) -> Option<Seq<char>> {
    if llm_api_key is Some {
        llm_api_key
    } else if provider == "anthropic"@ {
        anthropic_api_key
    } else if provider == "openai"@ {
        openai_api_key
    } else {
        None
    }
}

/// The views of optional strings.
pub open spec fn opt_view(o: Option<String>) -> Option<Seq<char>> {
    match o {
        Some(s) => Some(s@),
        None => None,
    }
}

/// Selects the API key from the values of the environment variables
/// `LLM_API_KEY`, `ANTHROPIC_API_KEY` and `OPENAI_API_KEY` (`None` where a
/// variable is unset).
pub fn resolve_api_key(
    provider: &str,
    llm_api_key: Option<String>,
    anthropic_api_key: Option<String>,
    openai_api_key: Option<String>,
) -> (r: Result<String, ConfigError>)
    ensures
        match api_key_choice(
            provider@,
            opt_view(llm_api_key),
            opt_view(anthropic_api_key),
            opt_view(openai_api_key),
        ) {
            Some(k) => r matches Ok(key) && key@ == k,
            None => r matches Err(ConfigError::MissingApiKey(m)) && m@ == "LLM_API_KEY or "@
                + uppercase(provider@) + "_API_KEY"@,
        },
{
    let chosen = match llm_api_key {
        Some(k) => Some(k),
        None => if str_eq(provider, "anthropic") {
            anthropic_api_key
        } else if str_eq(provider, "openai") {
            openai_api_key
        } else {
            None
        },
    };
    match chosen {
        Some(k) => Ok(k),
        None => {
            let up = to_uppercase(provider);
            Err(ConfigError::MissingApiKey(cat3("LLM_API_KEY or ", up.as_str(), "_API_KEY")))
        },
    }
}

/// The completion budget from the value of `LLM_MAX_TOKENS`: its value when it
/// parses as a `u32`, else 4096.
pub fn max_tokens_setting(text: Option<String>) -> (r: u32)
    ensures
        match text {
            Some(t) => match unsigned_text_value(t@) {
                Some(n) => if n <= u32::MAX { r as nat == n } else { r == 4096 },
                None => r == 4096,
            },
            None => r == 4096,
        },
{
    match text {
        Some(t) => match parse_u32(t.as_str()) {
            Some(v) => v,
            None => default_max_tokens(),
        },
        None => default_max_tokens(),
    }
}

/// An owned copy of a list of strings.
pub fn copy_strings(v: &Vec<String>) -> (r: Vec<String>)
    ensures
        r@.len() == v@.len(),
        forall|i: int| 0 <= i < v@.len() ==> (#[trigger] r@[i])@ == v@[i]@,
{
    let mut r: Vec<String> = Vec::new();
    let mut i: usize = 0;
    while i < v.len()
        invariant
            i <= v.len(),
            r@.len() == i,
            forall|k: int| 0 <= k < i ==> (#[trigger] r@[k])@ == v@[k]@,
        decreases v.len() - i,
    {
        r.push(owned(v[i].as_str()));
        i += 1;
    }
    r
}

/// Two permission rules say the same.
pub open spec fn same_permission(a: FilesystemPermission, b: FilesystemPermission) -> bool {
    views(a.operations@) == views(b.operations@) && views(a.paths@) == views(b.paths@) && a.mode@
        == b.mode@
}

/// Two optional lists of strings hold the same texts.
pub open spec fn same_opt_strings(a: Option<Vec<String>>, b: Option<Vec<String>>) -> bool {
    match (a, b) {
        (Some(x), Some(y)) => views(x@) == views(y@),
        (None, None) => true,
        _ => false,
    }
}

/// Two sub-agent configurations say the same.
pub open spec fn same_subagent(a: SubAgentConfig, b: SubAgentConfig) -> bool {
    &&& a.name@ == b.name@
    &&& a.description@ == b.description@
    &&& a.system_prompt@ == b.system_prompt@
    &&& opt_view(a.model) == opt_view(b.model)
    &&& same_opt_strings(a.tools, b.tools)
    &&& same_opt_strings(a.skills, b.skills)
    &&& match (a.permissions, b.permissions) {
        (Some(x), Some(y)) => x@.len() == y@.len() && forall|i: int|
            0 <= i < x@.len() ==> same_permission(#[trigger] x@[i], y@[i]),
        (None, None) => true,
        _ => false,
    }
}

fn copy_string_list(v: &Vec<String>) -> (r: Vec<String>)
    ensures
        views(r@) == views(v@),
{
    let r = copy_strings(v);
    proof {
        assert(views(r@) =~= views(v@));
    }
    r
}

fn copy_opt_strings(o: &Option<Vec<String>>) -> (r: Option<Vec<String>>)
    ensures
        same_opt_strings(r, *o),
{
    match o {
        Some(v) => Some(copy_string_list(v)),
        None => None,
    }
}

impl FilesystemPermission {
    /// A copy of the rule.
    pub fn copy(&self) -> (r: Self)
        ensures
            same_permission(r, *self),
    {
        FilesystemPermission {
            operations: copy_string_list(&self.operations),
            paths: copy_string_list(&self.paths),
            mode: owned(self.mode.as_str()),
        }
    }
}

impl SubAgentConfig {
    /// A copy of the configuration.
    pub fn copy(&self) -> (r: Self)
        ensures
            same_subagent(r, *self),
    {
        let permissions = match &self.permissions {
            Some(v) => {
                let mut out: Vec<FilesystemPermission> = Vec::new();
                let mut i: usize = 0;
                while i < v.len()
                    invariant
                        i <= v@.len(),
                        out@.len() == i,
                        forall|k: int| 0 <= k < i ==> same_permission(#[trigger] out@[k], v@[k]),
                    decreases v@.len() - i,
                {
                    out.push(v[i].copy());
                    i += 1;
                }
                Some(out)
            },
            None => None,
        };
        let model = match &self.model {
            Some(m) => Some(owned(m.as_str())),
            None => None,
        };
        SubAgentConfig {
            name: owned(self.name.as_str()),
            description: owned(self.description.as_str()),
            system_prompt: owned(self.system_prompt.as_str()),
            model,
            tools: copy_opt_strings(&self.tools),
            skills: copy_opt_strings(&self.skills),
            permissions,
        }
    }
}

/// No name occurs twice among named entries (such as MCP servers or
/// environment variables).
pub open spec fn keys_unique<T>(entries: Seq<(String, T)>) -> bool {
    forall|i: int, j: int| 0 <= i < j < entries.len() ==> entries[i].0@ != entries[j].0@
}

/// Sets the entry named `key` to `value`: the first entry with that name is
/// replaced in place, or the entry is added at the end. Names stay unique.
pub fn set_named_entry<T>(entries: &mut Vec<(String, T)>, key: String, value: T)
    ensures
        keys_unique(old(entries)@) ==> keys_unique(final(entries)@),
        match first_with_key(old(entries)@, key@) {
            Some(i) => final(entries)@ == old(entries)@.update(i as int, (key, value)),
            None => final(entries)@ == old(entries)@.push((key, value)),
        },
{
    let ghost before = entries@;
    let ghost kv = key@;
    let k = chars_of(key.as_str());
    let mut i: usize = 0;
    proof {
        assert(before.skip(0) =~= before);
    }
    while i < entries.len()
        invariant
            i <= entries@.len(),
            entries@ == before,
            before == old(entries)@,
            key@ == kv,
            k@ == kv,
            first_with_key(before, kv) == shift(first_with_key(before.skip(i as int), kv), i as nat),
        decreases entries@.len() - i,
    {
        proof {
            assert(before.skip(i as int)[0] == before[i as int]);
            assert(before.skip(i as int).drop_first() =~= before.skip(i + 1));
        }
        let name = chars_of(entries[i].0.as_str());
        if chars_eq(&name, &k) {
            proof {
                assert(before.skip(i as int)[0].0@ == kv);
                assert(first_with_key(before.skip(i as int), kv) == Some(0nat));
            }
            let ghost new_entry = (key, value);
            assert(new_entry.0@ == kv);
            entries.set(i, (key, value));
            proof {
                assert(entries@ == before.update(i as int, new_entry));
                assert forall|a: int, b: int| 0 <= a < b < entries@.len() && keys_unique(
                    before,
                ) implies (#[trigger] entries@[a]).0@ != (#[trigger] entries@[b]).0@ by {
                    assert(entries@[i as int].0@ == kv);
                    assert(before[i as int].0@ == kv);
                    if a != i as int {
                        assert(entries@[a] == before[a]);
                    }
                    if b != i as int {
                        assert(entries@[b] == before[b]);
                    }
                }
            }
            return;
        }
        i += 1;
    }
    proof {
        assert(before.skip(i as int).len() == 0);
        lemma_absent_key(before, kv);
    }
    let ghost entry = (key, value);
    entries.push((key, value));
    proof {
        assert forall|a: int, b: int| 0 <= a < b < entries@.len() && keys_unique(before) implies (
            #[trigger] entries@[a]).0@ != (#[trigger] entries@[b]).0@ by {
            if b == before.len() {
                assert(entries@[a] == before[a]);
                assert(entries@[b].0@ == kv);
            } else {
                assert(entries@[a] == before[a]);
                assert(entries@[b] == before[b]);
            }
        }
    }
}

/// The position of the first entry named `key`.
pub open spec fn first_with_key<T>(entries: Seq<(String, T)>, key: Seq<char>) -> Option<nat>
    decreases entries.len(),
{
    if entries.len() == 0 {
        None
    } else if entries[0].0@ == key {
        Some(0)
    } else {
        shift(first_with_key(entries.drop_first(), key), 1)
    }
}

/// A position moved `by` places on.
pub open spec fn shift(p: Option<nat>, by: nat) -> Option<nat> {
    match p {
        Some(i) => Some(i + by),
        None => None,
    }
}

proof fn lemma_absent_key<T>(entries: Seq<(String, T)>, key: Seq<char>)
    requires
        first_with_key(entries, key) is None,
    ensures
        forall|a: int| 0 <= a < entries.len() ==> (#[trigger] entries[a]).0@ != key,
    decreases entries.len(),
{
    if entries.len() > 0 {
        lemma_absent_key(entries.drop_first(), key);
        assert forall|a: int| 0 <= a < entries.len() implies (#[trigger] entries[a]).0@ != key by {
            if a > 0 {
                assert(entries[a] == entries.drop_first()[a - 1]);
            }
        }
    }
}

/// The provider and model from the values of `LLM_PROVIDER` and `LLM_MODEL`
/// (`None` where a variable is unset); the first unset variable is the error.
pub fn llm_identity(provider: Option<String>, model: Option<String>) -> (r: Result<
    (String, String),
    ConfigError,
>)
    ensures
        match (provider, model) {
            (Some(p), Some(m)) => r matches Ok(v) && v.0@ == p@ && v.1@ == m@,
            (None, _) => r matches Err(ConfigError::MissingEnv(v)) && v@ == "LLM_PROVIDER"@,
            (Some(_), None) => r matches Err(ConfigError::MissingEnv(v)) && v@ == "LLM_MODEL"@,
        },
{
    match provider {
        None => Err(ConfigError::MissingEnv(owned("LLM_PROVIDER"))),
        Some(p) => match model {
            None => Err(ConfigError::MissingEnv(owned("LLM_MODEL"))),
            Some(m) => Ok((p, m)),
        },
    }
}

/// The API a provider setting selects.
pub enum ProviderKind {
    /// The Anthropic Messages API.
    Anthropic,
    /// The OpenAI chat completions API, or one compatible with it.
    OpenAi,
}

/// The API for the value of `LLM_PROVIDER`: `anthropic` selects the
/// Anthropic API; any other value an OpenAI-compatible API.
pub fn provider_kind(provider: &str) -> (r: ProviderKind)
    ensures
        (r is Anthropic) <==> provider@ == "anthropic"@,
{
    if str_eq(provider, "anthropic") {
        ProviderKind::Anthropic
    } else {
        ProviderKind::OpenAi
    }
}

} // verus!
