//! OpenAI.

use crate::error::SchatError;
use crate::providers::base_client::HttpClient;
use crate::providers::openai_style::{
    bearer_client, bearer_header, build_request, strict_choice, strict_completion,
    wire_messages, wire_view, ChatCompletionRequest,
};
use crate::providers::{key_or_empty, key_text, Message};
use vstd::prelude::*;

verus! {

#[derive(Debug)]
pub struct OpenAIProvider {
    pub client: HttpClient,
    pub model: String,
}

/// The endpoint of OpenAI.
pub open spec fn openai_endpoint() -> Seq<char> {
    "https://api.openai.com/v1"@
}

impl OpenAIProvider {
    pub fn new(api_key: Option<String>, model: String) -> (r: OpenAIProvider)
        ensures
            r.client@ == bearer_client(openai_endpoint(), key_text(api_key), Seq::empty()),
            r.model@ == model@,
    {
        OpenAIProvider::with_endpoint(String::from_str("https://api.openai.com/v1"), api_key, model)
    }

    pub fn with_endpoint(endpoint: String, api_key: Option<String>, model: String) -> (r:
        OpenAIProvider)
        ensures
            r.client@ == bearer_client(endpoint@, key_text(api_key), Seq::empty()),
            r.model@ == model@,
    {
        let key = key_or_empty(api_key);
        let auth = bearer_header(key.as_str());
        OpenAIProvider { client: HttpClient::new(endpoint, Some(auth), None), model }
    }

    /// Asks another model from now on.
    pub fn set_model(&mut self, model: &str)
        ensures
            final(self).model@ == model@,
            final(self).client == old(self).client,
    {
        self.model = String::from_str(model);
    }

    /// The request that goes on with `messages`.
    pub fn request(&self, messages: &Vec<Message>, stream: Option<bool>) -> (r:
        ChatCompletionRequest)
        ensures
            r.model@ == self.model@,
            r.stream == stream,
            wire_view(r.messages@) == wire_messages(crate::providers::conversation(messages@)),
    {
        build_request(self.model.as_str(), messages, stream)
    }

    /// The response that the choices of a completion stand for: the first,
    /// trimmed; no choice and an empty one are errors of unknown kind.
    pub fn completion(contents: &Vec<String>) -> (r: Result<String, SchatError>)
        ensures
            match strict_choice(contents@) {
                Ok(text) => r matches Ok(t) && t@ == text,
                Err(words) => r matches Err(SchatError::Unknown(d)) && d@ == words,
            },
    {
        match strict_completion(contents) {
            Ok(text) => Ok(text),
            Err(words) => Err(SchatError::Unknown(words)),
        }
    }
}

} // verus!
