//! Gemini.

pub mod client;
pub mod types;

use crate::providers::gemini::client::{gemini_client, GeminiClient};
use crate::providers::{key_or_empty, key_text};
use vstd::prelude::*;

verus! {

#[derive(Debug)]
pub struct GeminiProvider {
    pub client: GeminiClient,
    pub model: String,
}

/// The endpoint of Gemini.
pub open spec fn gemini_endpoint() -> Seq<char> {
    "https://generativelanguage.googleapis.com"@
}

impl GeminiProvider {
    pub fn new(api_key: Option<String>, model: String) -> (r: GeminiProvider)
        ensures
            r.client.client@ == gemini_client(gemini_endpoint(), key_text(api_key), Seq::empty()),
            r.client.model@ == model@,
            r.model@ == model@,
    {
        GeminiProvider::with_endpoint(
            String::from_str("https://generativelanguage.googleapis.com"),
            api_key,
            model,
        )
    }

    pub fn with_endpoint(endpoint: String, api_key: Option<String>, model: String) -> (r:
        GeminiProvider)
        ensures
            r.client.client@ == gemini_client(endpoint@, key_text(api_key), Seq::empty()),
            r.client.model@ == model@,
            r.model@ == model@,
    {
        let key = key_or_empty(api_key);
        GeminiProvider { client: GeminiClient::new(endpoint, key, model.clone(), None), model }
    }

    /// Asks another model from now on.
    pub fn set_model(&mut self, model: &str)
        ensures
            final(self).model@ == model@,
            final(self).client.model@ == model@,
            final(self).client.client == old(self).client.client,
    {
        self.model = String::from_str(model);
        self.client.model = String::from_str(model);
    }
}

} // verus!
