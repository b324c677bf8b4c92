//! OpenRouter.

use crate::error::SchatError;
use crate::providers::base_client::HttpClient;
use crate::providers::openai_style::{
    bearer_client, bearer_header, build_request, strict_choice, strict_completion,
    wire_messages, wire_view, ChatCompletionRequest,
};
use crate::providers::{key_or_empty, key_text, Message};
use vstd::prelude::*;

verus! {

#[derive(Debug)]
pub struct OpenRouterProvider {
    pub client: HttpClient,
    pub model: String,
}

/// The endpoint of OpenRouter.
pub open spec fn openrouter_endpoint() -> Seq<char> {
    "https://openrouter.ai/api/v1"@
}

/// The headers by which the application makes itself known to OpenRouter.
pub open spec fn openrouter_headers() -> Seq<(Seq<char>, Seq<char>)> {
    seq![
        ("HTTP-Referer"@, "https://github.com/zwldarren/shellchat"@),
        ("X-Title"@, "ShellChat"@),
    ]
}

impl OpenRouterProvider {
    pub fn new(api_key: Option<String>, model: String) -> (r: OpenRouterProvider)
        ensures
            r.client@ == bearer_client(
                openrouter_endpoint(),
                key_text(api_key),
                openrouter_headers(),
            ),
            r.model@ == model@,
    {
        OpenRouterProvider::with_endpoint(
            String::from_str("https://openrouter.ai/api/v1"),
            api_key,
            model,
        )
    }

    pub fn with_endpoint(endpoint: String, api_key: Option<String>, model: String) -> (r:
        OpenRouterProvider)
        ensures
            r.client@ == bearer_client(endpoint@, key_text(api_key), openrouter_headers()),
            r.model@ == model@,
    {
        let mut extra: Vec<(String, String)> = Vec::new();
        extra.push(
            (
                String::from_str("HTTP-Referer"),
                String::from_str("https://github.com/zwldarren/shellchat"),
            ),
        );
        extra.push((String::from_str("X-Title"), String::from_str("ShellChat")));
        assert(crate::providers::base_client::pairs(extra@) =~= openrouter_headers());
        let key = key_or_empty(api_key);
        let auth = bearer_header(key.as_str());
        OpenRouterProvider { client: HttpClient::new(endpoint, Some(auth), Some(extra)), model }
    }

    /// Asks another model from now on.
    pub fn set_model(&mut self, model: &str)
        ensures
            final(self).model@ == model@,
            final(self).client == old(self).client,
    {
        self.model = String::from_str(model);
    }

    /// The request that goes on with `messages`.
    pub fn request(&self, messages: &Vec<Message>, stream: Option<bool>) -> (r:
        ChatCompletionRequest)
        ensures
            r.model@ == self.model@,
            r.stream == stream,
            wire_view(r.messages@) == wire_messages(crate::providers::conversation(messages@)),
    {
        build_request(self.model.as_str(), messages, stream)
    }

    /// The response that the choices of a completion stand for: the first,
    /// trimmed; no choice and an empty one are errors of the API.
    pub fn completion(contents: &Vec<String>) -> (r: Result<String, SchatError>)
        ensures
            match strict_choice(contents@) {
                Ok(text) => r matches Ok(t) && t@ == text,
                Err(words) => r matches Err(SchatError::Api(d)) && d@ == words,
            },
    {
        match strict_completion(contents) {
            Ok(text) => Ok(text),
            Err(words) => Err(SchatError::Api(words)),
        }
    }
}

} // verus!
