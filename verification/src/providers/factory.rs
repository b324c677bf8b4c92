//! Makes the provider that the configuration names.

use crate::config::{copy_opt, default_url, Provider, ProviderConfig, ProviderConfigView};
use crate::error::SchatError;
use crate::providers::gemini::client::gemini_client;
use crate::providers::gemini::GeminiProvider;
use crate::providers::openai::OpenAIProvider;
use crate::providers::openai_compatible::OpenAICompatibleProvider;
use crate::providers::openai_style::bearer_client;
use crate::providers::openrouter::{openrouter_headers, OpenRouterProvider};
use vstd::prelude::*;

verus! {

/// A provider that is ready to be asked.
#[derive(Debug)]
pub enum ProviderClient {
    OpenAI(OpenAIProvider),
    OpenRouter(OpenRouterProvider),
    DeepSeek(OpenAICompatibleProvider),
    Gemini(GeminiProvider),
}

/// The model that a provider is asked for where the settings name none.
pub open spec fn default_model(provider: Provider) -> Seq<char> {
    match provider {
        Provider::OpenAI => "gpt-4.1-mini"@,
        Provider::OpenRouter => "google/gemini-2.0-flash-001"@,
        Provider::DeepSeek => "deepseek-chat"@,
        Provider::Gemini => "gemini-2.0-flash"@,
        Provider::Anthropic => "gpt-4.1-mini"@,
    }
}

/// The model that the settings lead to.
pub open spec fn model_of(provider: Provider, settings: ProviderConfigView) -> Seq<char> {
    match settings.model {
        Some(m) => m,
        None => default_model(provider),
    }
}

/// The endpoint that the settings lead to.
pub open spec fn endpoint_of(provider: Provider, settings: ProviderConfigView) -> Seq<char> {
    match settings.base_url {
        Some(url) => url,
        None => default_url(provider),
    }
}

/// The key that the settings hold; empty where they hold none.
pub open spec fn key_of(settings: ProviderConfigView) -> Seq<char> {
    match settings.api_key {
        Some(k) => k,
        None => Seq::empty(),
    }
}

/// Makes providers.
#[derive(Debug)]
pub struct ProviderFactory {}

impl ProviderFactory {
    pub fn new() -> (r: ProviderFactory) {
        ProviderFactory {  }
    }

    /// The provider `provider` with the settings `config`: the endpoint and
    /// the model of the settings, or the provider's own where the settings
    /// name none. No provider can be made for Anthropic.
    pub fn create(&self, provider: &Provider, config: &ProviderConfig) -> (r: Result<
        ProviderClient,
        SchatError,
    >)
        ensures
            ({
                let endpoint = endpoint_of(*provider, config@);
                let model = model_of(*provider, config@);
                let key = key_of(config@);
                match *provider {
                    Provider::OpenAI => r matches Ok(ProviderClient::OpenAI(p)) && p.client@
                        == bearer_client(endpoint, key, Seq::empty()) && p.model@ == model,
                    Provider::OpenRouter => r matches Ok(ProviderClient::OpenRouter(p))
                        && p.client@ == bearer_client(endpoint, key, openrouter_headers())
                        && p.model@ == model,
                    Provider::DeepSeek => r matches Ok(ProviderClient::DeepSeek(p)) && p.client@
                        == bearer_client(endpoint, key, Seq::empty()) && p.model@ == model,
                    Provider::Gemini => r matches Ok(ProviderClient::Gemini(p))
                        && p.client.client@ == gemini_client(endpoint, key, Seq::empty())
                        && p.model@ == model && p.client.model@ == model,
                    Provider::Anthropic => r matches Err(SchatError::Config(d)) && d@
                        == "Provider not found: Anthropic"@,
                }
            }),
    {
        let endpoint = match &config.base_url {
            Some(url) => url.clone(),
            None => String::from_str(provider.default_base_url()),
        };
        let key = copy_opt(&config.api_key);
        match provider {
            Provider::OpenAI => {
                let model = match &config.model {
                    Some(m) => m.clone(),
                    None => String::from_str("gpt-4.1-mini"),
                };
                Ok(ProviderClient::OpenAI(OpenAIProvider::with_endpoint(endpoint, key, model)))
            },
            Provider::OpenRouter => {
                let model = match &config.model {
                    Some(m) => m.clone(),
                    None => String::from_str("google/gemini-2.0-flash-001"),
                };
                Ok(
                    ProviderClient::OpenRouter(
                        OpenRouterProvider::with_endpoint(endpoint, key, model),
                    ),
                )
            },
            Provider::DeepSeek => {
                let model = match &config.model {
                    Some(m) => m.clone(),
                    None => String::from_str("deepseek-chat"),
                };
                let key = crate::providers::key_or_empty(key);
                Ok(
                    ProviderClient::DeepSeek(
                        OpenAICompatibleProvider::new(endpoint, key, model, None),
                    ),
                )
            },
            Provider::Gemini => {
                let model = match &config.model {
                    Some(m) => m.clone(),
                    None => String::from_str("gemini-2.0-flash"),
                };
                Ok(ProviderClient::Gemini(GeminiProvider::with_endpoint(endpoint, key, model)))
            },
            Provider::Anthropic => Err(
                SchatError::Config(String::from_str("Provider not found: Anthropic")),
            ),
        }
    }
}

} // verus!
