use shellchat::cli::Args;
use shellchat::config::{
    default_true, join_path, merge_config_with_args, transport_kind, Config, McpServerConfig,
    McpTransportConfig, Provider, ProviderConfig,
};
use shellchat::json::JsonDoc;

fn args() -> Args {
    Args {
        query: None,
        shell: false,
        chat: false,
        yes: false,
        provider: None,
        base_url: None,
        model: None,
    }
}

fn settings(key: Option<&str>, url: Option<&str>, model: Option<&str>) -> ProviderConfig {
    ProviderConfig {
        api_key: key.map(|s| s.to_string()),
        base_url: url.map(|s| s.to_string()),
        model: model.map(|s| s.to_string()),
    }
}

#[test]
fn providers_are_named_in_any_case() {
    assert_eq!(Provider::from_str("openai"), Some(Provider::OpenAI));
    assert_eq!(Provider::from_str("OpenAI"), Some(Provider::OpenAI));
    assert_eq!(Provider::from_str("OPENROUTER"), Some(Provider::OpenRouter));
    assert_eq!(Provider::from_str("DeepSeek"), Some(Provider::DeepSeek));
    assert_eq!(Provider::from_str("gemini"), Some(Provider::Gemini));
    assert_eq!(Provider::from_str("Anthropic"), Some(Provider::Anthropic));
    assert_eq!(Provider::from_str("deepsee\u{212a}"), Some(Provider::DeepSeek));
    assert_eq!(Provider::from_str(""), None);
    assert_eq!(Provider::from_str("open ai"), None);
    assert_eq!(Provider::from_str(" openai"), None);
}

#[test]
fn from_name_takes_lower_case_only() {
    assert_eq!(Provider::from_name("gemini"), Some(Provider::Gemini));
    assert_eq!(Provider::from_name("Gemini"), None);
    assert_eq!(Provider::from_name("openai"), Some(Provider::OpenAI));
    assert_eq!(Provider::from_name("openrouter"), Some(Provider::OpenRouter));
    assert_eq!(Provider::from_name("deepseek"), Some(Provider::DeepSeek));
    assert_eq!(Provider::from_name("anthropic"), Some(Provider::Anthropic));
}

#[test]
fn every_provider_has_its_endpoint() {
    assert_eq!(Provider::OpenAI.default_base_url(), "https://api.openai.com/v1");
    assert_eq!(Provider::OpenRouter.default_base_url(), "https://openrouter.ai/api/v1");
    assert_eq!(Provider::DeepSeek.default_base_url(), "https://api.deepseek.com/v1");
    assert_eq!(
        Provider::Gemini.default_base_url(),
        "https://generativelanguage.googleapis.com"
    );
    assert_eq!(Provider::Anthropic.default_base_url(), "https://api.anthropic.com/v1");
    assert_eq!(Provider::default(), Provider::OpenAI);
    assert!(default_true());
}

#[test]
fn the_paths_lie_below_the_home_directory() {
    assert_eq!(Config::config_path("/home/ada"), "/home/ada/.schat/config.yaml");
    assert_eq!(Config::history_dir("/home/ada"), "/home/ada/.schat/history");
    assert_eq!(Config::config_path("/home/ada/"), "/home/ada/.schat/config.yaml");
    assert_eq!(Config::config_path("."), "./.schat/config.yaml");
    assert_eq!(Config::config_path("/"), "/.schat/config.yaml");
    assert_eq!(Config::config_path(""), ".schat/config.yaml");
    assert_eq!(join_path("a", "b"), "a/b");
    assert_eq!(join_path("a/", "b"), "a/b");
    assert_eq!(join_path("", "b"), "b");
}

#[test]
fn the_paths_are_what_the_standard_library_joins() {
    for home in vec!["/home/ada", "/home/ada/", ".", "/", ""] {
        let joined = std::path::Path::new(home).join(".schat").join("config.yaml");
        assert_eq!(Config::config_path(home), joined.to_str().expect("text"));
        let joined = std::path::Path::new(home).join(".schat").join("history");
        assert_eq!(Config::history_dir(home), joined.to_str().expect("text"));
    }
}

#[test]
fn without_arguments_and_settings_the_defaults_hold() {
    let (provider, base_url, model, key) = merge_config_with_args(&Config::new(), &args());
    assert_eq!(provider, Provider::OpenAI);
    assert_eq!(base_url, "https://api.openai.com/v1");
    assert_eq!(model, "gpt-4.1-mini");
    assert_eq!(key, None);
}

#[test]
fn the_arguments_come_before_the_settings() {
    let mut config = Config::new();
    config.active_provider = Some(Provider::Gemini);
    config.providers.push((
        Provider::OpenRouter,
        settings(Some("key-r"), Some("https://r.example"), Some("model-r")),
    ));
    config.providers.push((Provider::Gemini, settings(Some("key-g"), None, Some("model-g"))));
    let (provider, base_url, model, key) = merge_config_with_args(&config, &args());
    assert_eq!(provider, Provider::Gemini);
    assert_eq!(base_url, "https://generativelanguage.googleapis.com");
    assert_eq!(model, "model-g");
    assert_eq!(key, Some("key-g".to_string()));

    let mut named = args();
    named.provider = Some("OpenRouter".to_string());
    named.model = Some("model-a".to_string());
    let (provider, base_url, model, key) = merge_config_with_args(&config, &named);
    assert_eq!(provider, Provider::OpenRouter);
    assert_eq!(base_url, "https://r.example");
    assert_eq!(model, "model-a");
    assert_eq!(key, Some("key-r".to_string()));

    let mut named = args();
    named.provider = Some("nonsense".to_string());
    named.base_url = Some("https://a.example".to_string());
    let (provider, base_url, model, key) = merge_config_with_args(&config, &named);
    assert_eq!(provider, Provider::Gemini);
    assert_eq!(base_url, "https://a.example");
    assert_eq!(model, "model-g");
    assert_eq!(key, Some("key-g".to_string()));
}

#[test]
fn the_first_settings_of_a_provider_count() {
    let mut config = Config::new();
    config.providers.push((Provider::OpenAI, settings(Some("first"), None, None)));
    config.providers.push((Provider::OpenAI, settings(Some("second"), None, None)));
    assert_eq!(config.provider_config(Provider::OpenAI).api_key, Some("first".to_string()));
    assert_eq!(config.provider_config(Provider::Gemini).api_key, None);
    let copy = config.provider_config(Provider::OpenAI).clone();
    assert_eq!(copy.api_key, Some("first".to_string()));
    assert_eq!(ProviderConfig::default().model, None);
}

#[test]
fn the_servers_in_use_are_found() {
    let mut config = Config::new();
    let server = |name: &str, enabled: bool| McpServerConfig {
        name: name.to_string(),
        enabled,
        transport: McpTransportConfig::Sse { url: "https://s.example".to_string() },
    };
    config.mcp_servers.push(server("a", true));
    config.mcp_servers.push(server("b", false));
    config.mcp_servers.push(server("c", true));
    assert_eq!(config.enabled_servers(), vec![0, 2]);
    assert_eq!(Config::new().enabled_servers(), Vec::<usize>::new());
}

#[test]
fn the_kind_of_transport_is_read_or_guessed() {
    let kind = |text: &str| transport_kind(&JsonDoc::parse(text).expect("a document"));
    assert_eq!(kind("{\"type\": \"sse\", \"url\": \"u\"}"), Some("sse".to_string()));
    assert_eq!(kind("{\"name\": \"n\", \"url\": \"u\"}"), Some("streamable-http".to_string()));
    assert_eq!(kind("{\"name\": \"n\", \"command\": \"c\"}"), Some("stdio".to_string()));
    assert_eq!(
        kind("{\"url\": \"u\", \"command\": \"c\"}"),
        Some("streamable-http".to_string())
    );
    assert_eq!(kind("{\"name\": \"n\"}"), None);
    assert_eq!(kind("{\"type\": 3, \"url\": \"u\"}"), None);
    assert_eq!(kind("[]"), None);
}
