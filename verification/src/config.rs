//! The configuration: providers with their settings, and tool servers.

use crate::cli::Args;
use crate::json::{member_of, JsonDoc, JsonValue};
use crate::strings::{chars_of, lowercase, lowercase_of, text_eq};
use vstd::prelude::*;

verus! {

/// The vendors whose models can be asked.
#[derive(Debug, Clone, Copy, PartialEq, Eq, Hash, Structural)]
pub enum Provider {
    OpenAI,
    OpenRouter,
    DeepSeek,
    Gemini,
    Anthropic,
}

/// The provider that a name in lower case stands for.
pub open spec fn provider_named(name: Seq<char>) -> Option<Provider> {
    if name == "openai"@ {
        Some(Provider::OpenAI)
    } else if name == "openrouter"@ {
        Some(Provider::OpenRouter)
    } else if name == "deepseek"@ {
        Some(Provider::DeepSeek)
    } else if name == "gemini"@ {
        Some(Provider::Gemini)
    } else if name == "anthropic"@ {
        Some(Provider::Anthropic)
    } else {
        None
    }
}

/// The endpoint that a provider has by default.
pub open spec fn default_url(provider: Provider) -> Seq<char> {
    match provider {
        Provider::OpenAI => "https://api.openai.com/v1"@,
        Provider::OpenRouter => "https://openrouter.ai/api/v1"@,
        Provider::DeepSeek => "https://api.deepseek.com/v1"@,
        Provider::Gemini => "https://generativelanguage.googleapis.com"@,
        Provider::Anthropic => "https://api.anthropic.com/v1"@,
    }
}

impl Provider {
    /// The provider that `name`, written in lower case, stands for.
    pub fn from_name(name: &str) -> (r: Option<Provider>)
        ensures
            r == provider_named(name@),
    {
        if text_eq(name, "openai") {
            Some(Provider::OpenAI)
        } else if text_eq(name, "openrouter") {
            Some(Provider::OpenRouter)
        } else if text_eq(name, "deepseek") {
            Some(Provider::DeepSeek)
        } else if text_eq(name, "gemini") {
            Some(Provider::Gemini)
        } else if text_eq(name, "anthropic") {
            Some(Provider::Anthropic)
        } else {
            None
        }
    }

    /// The provider that `s` stands for, in whatever case it is written.
    pub fn from_str(s: &str) -> (r: Option<Provider>)
        ensures
            r == provider_named(lowercase_of(s@)),
    {
        let lower = lowercase(s);
        Provider::from_name(lower.as_str())
    }

    /// The endpoint that this provider has by default.
    pub fn default_base_url(&self) -> (r: &'static str)
        ensures
            r@ == default_url(*self),
    {
        match self {
            Provider::OpenAI => "https://api.openai.com/v1",
            Provider::OpenRouter => "https://openrouter.ai/api/v1",
            Provider::DeepSeek => "https://api.deepseek.com/v1",
            Provider::Gemini => "https://generativelanguage.googleapis.com",
            Provider::Anthropic => "https://api.anthropic.com/v1",
        }
    }
}

impl Default for Provider {
    fn default() -> (r: Provider)
        ensures
            r == Provider::OpenAI,
    {
        Provider::OpenAI
    }
}

/// The text of an optional string.
pub open spec fn opt_text(o: Option<String>) -> Option<Seq<char>> {
    match o {
        Some(s) => Some(s@),
        None => None,
    }
}

/// A copy of an optional string.
pub fn copy_opt(o: &Option<String>) -> (r: Option<String>)
    ensures
        opt_text(r) == opt_text(*o),
{
    match o {
        Some(s) => Some(s.clone()),
        None => None,
    }
}

/// The settings of one provider.
#[derive(Debug)]
pub struct ProviderConfig {
    pub api_key: Option<String>,
    pub base_url: Option<String>,
    pub model: Option<String>,
}

/// The settings of one provider as a mathematical value.
pub struct ProviderConfigView {
    pub api_key: Option<Seq<char>>,
    pub base_url: Option<Seq<char>>,
    pub model: Option<Seq<char>>,
}

impl View for ProviderConfig {
    type V = ProviderConfigView;

    open spec fn view(&self) -> ProviderConfigView {
        ProviderConfigView {
            api_key: opt_text(self.api_key),
            base_url: opt_text(self.base_url),
            model: opt_text(self.model),
        }
    }
}

impl Clone for ProviderConfig {
    fn clone(&self) -> (r: ProviderConfig)
        ensures
            r@ == self@,
    {
        ProviderConfig {
            api_key: copy_opt(&self.api_key),
            base_url: copy_opt(&self.base_url),
            model: copy_opt(&self.model),
        }
    }
}

impl Default for ProviderConfig {
    fn default() -> (r: ProviderConfig)
        ensures
            r@ == (ProviderConfigView { api_key: None, base_url: None, model: None }),
    {
        ProviderConfig { api_key: None, base_url: None, model: None }
    }
}

/// How a tool server is reached.
#[derive(Debug)]
pub enum McpTransportConfig {
    Sse { url: String },
    StreamableHttp { url: String },
    Stdio { command: String, args: Vec<String>, envs: Vec<(String, String)> },
}

/// One tool server.
#[derive(Debug)]
pub struct McpServerConfig {
    pub name: String,
    pub enabled: bool,
    pub transport: McpTransportConfig,
}

/// Whether a server is in use where the configuration does not say.
pub fn default_true() -> (r: bool)
    ensures
        r,
{
    true
}

/// The kind of transport that an entry of the configuration names: the
/// member `type` where it has one; else `streamable-http` for an entry with a
/// `url`, and `stdio` for one with a `command`.
pub open spec fn transport_kind_of(entry: JsonValue) -> Option<Seq<char>> {
    match member_of(entry, "type"@) {
        Some(JsonValue::Text(kind)) => Some(kind),
        Some(_) => None,
        None => if member_of(entry, "url"@) is Some {
            Some("streamable-http"@)
        } else if member_of(entry, "command"@) is Some {
            Some("stdio"@)
        } else {
            None
        },
    }
}

/// The kind of transport that an entry of the configuration names.
pub fn transport_kind(entry: &JsonDoc) -> (r: Option<String>)
    ensures
        opt_text(r) == transport_kind_of(entry@),
{
    match entry.get("type") {
        Some(kind) => kind.as_text(),
        None => if entry.get("url").is_some() {
            Some(String::from_str("streamable-http"))
        } else if entry.get("command").is_some() {
            Some(String::from_str("stdio"))
        } else {
            None
        },
    }
}

/// The whole configuration. Each provider has at most the settings that
/// come first under it.
#[derive(Debug)]
pub struct Config {
    pub active_provider: Option<Provider>,
    pub auto_confirm: bool,
    pub providers: Vec<(Provider, ProviderConfig)>,
    pub mcp_servers: Vec<McpServerConfig>,
}

/// The index of the first settings for `provider` at or after `from`.
pub open spec fn settings_index(
    providers: Seq<(Provider, ProviderConfig)>,
    provider: Provider,
    from: int,
) -> Option<int>
    decreases providers.len() - from,
{
    if from < 0 || from >= providers.len() {
        None
    } else if providers[from].0 == provider {
        Some(from)
    } else {
        settings_index(providers, provider, from + 1)
    }
}

/// The settings of `provider`; empty settings where it has none.
pub open spec fn settings_of(providers: Seq<(Provider, ProviderConfig)>, provider: Provider) ->
    ProviderConfigView {
    match settings_index(providers, provider, 0) {
        Some(i) => providers[i].1@,
        None => ProviderConfigView { api_key: None, base_url: None, model: None },
    }
}

/// The first of three choices that is made.
pub open spec fn first_of(
    a: Option<Seq<char>>,
    b: Option<Seq<char>>,
    fallback: Seq<char>,
) -> Seq<char> {
    match a {
        Some(x) => x,
        None => match b {
            Some(y) => y,
            None => fallback,
        },
    }
}

/// The model that is asked where nothing names one.
pub open spec fn fallback_model() -> Seq<char> {
    "gpt-4.1-mini"@
}

impl Config {
    /// A configuration without providers and servers.
    pub fn new() -> (r: Config)
        ensures
            r.active_provider is None,
            !r.auto_confirm,
            r.providers@.len() == 0,
            r.mcp_servers@.len() == 0,
    {
        Config {
            active_provider: None,
            auto_confirm: false,
            providers: Vec::new(),
            mcp_servers: Vec::new(),
        }
    }

    /// The settings of `provider`.
    pub fn provider_config(&self, provider: Provider) -> (r: ProviderConfig)
        ensures
            r@ == settings_of(self.providers@, provider),
    {
        let n: usize = self.providers.len();
        let mut i: usize = 0;
        while i < n
            invariant
                i <= n,
                n == self.providers.len(),
                settings_index(self.providers@, provider, 0) == settings_index(
                    self.providers@,
                    provider,
                    i as int,
                ),
            decreases n - i,
        {
            if self.providers[i].0 == provider {
                return self.providers[i].1.clone();
            }
            i += 1;
        }
        ProviderConfig::default()
    }

    /// The servers that are in use, by index.
    pub fn enabled_servers(&self) -> (r: Vec<usize>)
        ensures
            forall|k: int|
                0 <= k < r@.len() ==> r@[k] < self.mcp_servers@.len()
                    && self.mcp_servers@[r@[k] as int].enabled,
            forall|k: int, l: int| 0 <= k < l < r@.len() ==> r@[k] < r@[l],
            forall|i: int|
                0 <= i < self.mcp_servers@.len() && self.mcp_servers@[i].enabled ==> exists|k: int|
                    0 <= k < r@.len() && r@[k] == i,
    {
        let mut r: Vec<usize> = Vec::new();
        let n: usize = self.mcp_servers.len();
        let mut i: usize = 0;
        while i < n
            invariant
                i <= n,
                n == self.mcp_servers.len(),
                forall|k: int|
                    0 <= k < r@.len() ==> r@[k] < i && self.mcp_servers@[r@[k] as int].enabled,
                forall|k: int, l: int| 0 <= k < l < r@.len() ==> r@[k] < r@[l],
                forall|j: int|
                    0 <= j < i && self.mcp_servers@[j].enabled ==> exists|k: int|
                        0 <= k < r@.len() && r@[k] == j,
            decreases n - i,
        {
            if self.mcp_servers[i].enabled {
                let ghost before = r@;
                r.push(i);
                assert forall|j: int| 0 <= j < i + 1 && self.mcp_servers@[j].enabled implies exists|
                    k: int,
                | 0 <= k < r@.len() && r@[k] == j by {
                    if j < i {
                        let k = choose|k: int| 0 <= k < before.len() && before[k] == j;
                        assert(r@[k] == j);
                    } else {
                        assert(r@[before.len() as int] == j);
                    }
                }
            }
            i += 1;
        }
        r
    }
}

/// The file of the configuration below the home directory `home`.
pub open spec fn config_file(home: Seq<char>) -> Seq<char> {
    joined_path(joined_path(home, ".schat"@), "config.yaml"@)
}

/// The directory of the saved conversations below the home directory `home`.
pub open spec fn history_directory(home: Seq<char>) -> Seq<char> {
    joined_path(joined_path(home, ".schat"@), "history"@)
}

/// A path with one more component: the separator goes between the two
/// unless the path is empty or ends in one.
pub open spec fn joined_path(base: Seq<char>, name: Seq<char>) -> Seq<char> {
    if base.len() == 0 || base.last() == '/' {
        base + name
    } else {
        base + "/"@ + name
    }
}

/// `base` with the component `name` added.
pub fn join_path(base: &str, name: &str) -> (r: String)
    ensures
        r@ == joined_path(base@, name@),
{
    let b = chars_of(base);
    let mut r = String::from_str(base);
    if b.len() > 0 && b[b.len() - 1] != '/' {
        r.append("/");
    }
    r.append(name);
    r
}

impl Config {
    /// The file of the configuration below the home directory `home`.
    pub fn config_path(home: &str) -> (r: String)
        ensures
            r@ == config_file(home@),
    {
        join_path(join_path(home, ".schat").as_str(), "config.yaml")
    }

    /// The directory of the saved conversations below the home directory
    /// `home`.
    pub fn history_dir(home: &str) -> (r: String)
        ensures
            r@ == history_directory(home@),
    {
        join_path(join_path(home, ".schat").as_str(), "history")
    }
}

/// The provider that an invocation runs with: the one that the arguments
/// name, if they name one that exists; else the active one of the
/// configuration; else the default.
pub open spec fn selected_provider(named: Option<Seq<char>>, active: Option<Provider>) -> Provider {
    let by_name = match named {
        Some(name) => provider_named(lowercase_of(name)),
        None => None,
    };
    match by_name {
        Some(p) => p,
        None => match active {
            Some(p) => p,
            None => Provider::OpenAI,
        },
    }
}

/// Puts the arguments over the configuration: for the endpoint and the
/// model the arguments come first, then the settings of the provider, then
/// the default; the key comes from the settings.
/// The result holds the provider, the endpoint, the model and the key, in
/// this order.
pub fn merge_config_with_args(config: &Config, args: &Args) -> (r: (
    Provider,
    String,
    String,
    Option<String>,
))
    ensures
        r.0 == selected_provider(opt_text(args.provider), config.active_provider),
        r.1@ == first_of(
            opt_text(args.base_url),
            settings_of(config.providers@, r.0).base_url,
            default_url(r.0),
        ),
        r.2@ == first_of(
            opt_text(args.model),
            settings_of(config.providers@, r.0).model,
            fallback_model(),
        ),
        opt_text(r.3) == settings_of(config.providers@, r.0).api_key,
{
    let by_name = match &args.provider {
        Some(name) => Provider::from_str(name.as_str()),
        None => None,
    };
    let provider = match by_name {
        Some(p) => p,
        None => match config.active_provider {
            Some(p) => p,
            None => Provider::default(),
        },
    };
    let settings = config.provider_config(provider);
    let base_url = match &args.base_url {
        Some(url) => url.clone(),
        None => match &settings.base_url {
            Some(url) => url.clone(),
            None => String::from_str(provider.default_base_url()),
        },
    };
    let model = match &args.model {
        Some(m) => m.clone(),
        None => match &settings.model {
            Some(m) => m.clone(),
            None => String::from_str("gpt-4.1-mini"),
        },
    };
    (provider, base_url, model, settings.api_key)
}

} // verus!
