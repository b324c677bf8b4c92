//! Anthropic.

use crate::config::opt_text;
use crate::providers::base_client::{HttpClient, HttpClientView};
use crate::providers::openai_style::{
    dialogue, dialogue_of, first_system, system_of, wire_view, ChatCompletionMessage,
};
use crate::error::SchatError;
use crate::json::{json_document, member_of, text_member_of, JsonDoc, JsonValue};
use crate::providers::stream::{chunk_of, finished_chunk, ChunkView, EventView, StreamEvent};
use crate::providers::{conversation, key_or_empty, key_text, Message};
use crate::strings::{
    chars_of, lines_of, occurs_at, split_lines, starts_with, texts_of, trim, trimmed_after,
};
use vstd::prelude::*;

verus! {

#[derive(Debug)]
pub struct AnthropicProvider {
    pub client: HttpClient,
    pub model: String,
}

/// A request for a message of the model.
#[derive(Debug)]
pub struct AnthropicRequest {
    pub model: String,
    pub max_tokens: u32,
    pub messages: Vec<ChatCompletionMessage>,
    pub stream: Option<bool>,
    pub system: Option<String>,
}

/// The most tokens that a response may have.
pub const MAX_TOKENS: u32 = 1024;

/// The endpoint of Anthropic.
pub open spec fn anthropic_endpoint() -> Seq<char> {
    "https://api.anthropic.com/v1"@
}

/// The client of Anthropic at `endpoint`: the key goes into a header of its
/// own, and the version of the API is named.
pub open spec fn anthropic_client(endpoint: Seq<char>, key: Seq<char>) -> HttpClientView {
    HttpClientView {
        base_url: endpoint,
        auth_header: Some(("x-api-key"@, key)),
        extra_headers: seq![("anthropic-version"@, "2023-06-01"@)],
        query_params: Seq::empty(),
    }
}

impl AnthropicProvider {
    pub fn new(api_key: Option<String>, model: String) -> (r: AnthropicProvider)
        ensures
            r.client@ == anthropic_client(anthropic_endpoint(), key_text(api_key)),
            r.model@ == model@,
    {
        AnthropicProvider::with_endpoint(
            String::from_str("https://api.anthropic.com/v1"),
            api_key,
            model,
        )
    }

    pub fn with_endpoint(endpoint: String, api_key: Option<String>, model: String) -> (r:
        AnthropicProvider)
        ensures
            r.client@ == anthropic_client(endpoint@, key_text(api_key)),
            r.model@ == model@,
    {
        let mut extra: Vec<(String, String)> = Vec::new();
        extra.push((String::from_str("anthropic-version"), String::from_str("2023-06-01")));
        assert(crate::providers::base_client::pairs(extra@) =~= seq![
            ("anthropic-version"@, "2023-06-01"@),
        ]);
        let key = key_or_empty(api_key);
        AnthropicProvider {
            client: HttpClient::new(
                endpoint,
                Some((String::from_str("x-api-key"), key)),
                Some(extra),
            ),
            model,
        }
    }

    /// Asks another model from now on.
    pub fn set_model(&mut self, model: &str)
        ensures
            final(self).model@ == model@,
            final(self).client == old(self).client,
    {
        self.model = String::from_str(model);
    }

    /// The request that goes on with `messages`: the first system message
    /// becomes the system prompt, the other system messages are left out.
    pub fn request(&self, messages: &Vec<Message>, stream: bool) -> (r: AnthropicRequest)
        ensures
            r.model@ == self.model@,
            r.max_tokens == MAX_TOKENS,
            r.stream == Some(stream),
            opt_text(r.system) == first_system(conversation(messages@), 0),
            wire_view(r.messages@) == dialogue(conversation(messages@), "assistant"@),
    {
        AnthropicRequest {
            model: self.model.clone(),
            max_tokens: MAX_TOKENS,
            messages: dialogue_of(messages, "assistant"),
            stream: Some(stream),
            system: system_of(messages),
        }
    }
}

/// The response that the texts of the content blocks stand for: the first.
pub fn first_block(texts: &Vec<String>) -> (r: Result<String, crate::error::SchatError>)
    ensures
        texts@.len() > 0 ==> (r matches Ok(t) && t@ == texts@[0]@),
        texts@.len() == 0 ==> (r matches Err(crate::error::SchatError::Api(d)) && d@
            == "Empty response from Anthropic"@),
{
    if texts.len() == 0 {
        return Err(
            crate::error::SchatError::Api(String::from_str("Empty response from Anthropic")),
        );
    }
    Ok(texts[0].clone())
}

/// What a document of the stream says: a delta of a content block adds its
/// text, where it is a delta of text; an error with a message fails the
/// stream; everything else counts for nothing.
pub open spec fn anthropic_doc_event(doc: JsonValue) -> EventView {
    if member_of(doc, "type"@) == Some(JsonValue::Text("content_block_delta"@)) {
        match member_of(doc, "delta"@) {
            Some(delta) => if member_of(delta, "type"@) == Some(JsonValue::Text("text_delta"@)) {
                match text_member_of(delta, "text"@) {
                    Some(text) => EventView::Text(text),
                    None => EventView::Skip,
                }
            } else {
                EventView::Skip
            },
            None => EventView::Skip,
        }
    } else if member_of(doc, "type"@) == Some(JsonValue::Text("error"@)) {
        match member_of(doc, "error"@) {
            Some(error) => match text_member_of(error, "message"@) {
                Some(message) => EventView::Fail("Anthropic stream error: "@ + message),
                None => EventView::Skip,
            },
            None => EventView::Skip,
        }
    } else {
        EventView::Skip
    }
}

/// What a line of the stream says. Only a line that starts with `data:`
/// counts, and only where what follows, trimmed, is a JSON document.
pub open spec fn anthropic_event(line: Seq<char>) -> EventView {
    if !occurs_at(line, "data:"@, 0) {
        EventView::Skip
    } else {
        let data = trim(line.skip("data:"@.len() as int));
        if data.len() == 0 {
            EventView::Skip
        } else {
            match json_document(data) {
                None => EventView::Skip,
                Some(doc) => anthropic_doc_event(doc),
            }
        }
    }
}

/// The events of the lines of a chunk.
pub open spec fn anthropic_events(lines: Seq<Seq<char>>) -> Seq<EventView> {
    lines.map_values(|l: Seq<char>| anthropic_event(l))
}

/// Whether the member `key` of `doc` is the string `expected`.
fn member_is(doc: &JsonDoc, key: &str, expected: &str) -> (r: bool)
    ensures
        r == (member_of(doc@, key@) == Some(JsonValue::Text(expected@))),
{
    match doc.get(key) {
        Some(m) => m.is_text(expected),
        None => false,
    }
}

fn event_of_doc(doc: &JsonDoc) -> (r: StreamEvent)
    ensures
        r@ == anthropic_doc_event(doc@),
{
    if member_is(doc, "type", "content_block_delta") {
        match doc.get("delta") {
            Some(delta) => {
                if member_is(&delta, "type", "text_delta") {
                    match delta.text_member("text") {
                        Some(text) => StreamEvent::Text(text),
                        None => StreamEvent::Skip,
                    }
                } else {
                    StreamEvent::Skip
                }
            },
            None => StreamEvent::Skip,
        }
    } else if member_is(doc, "type", "error") {
        match doc.get("error") {
            Some(error) => match error.text_member("message") {
                Some(message) => {
                    let mut words = String::from_str("Anthropic stream error: ");
                    words.append(message.as_str());
                    StreamEvent::Fail(words)
                },
                None => StreamEvent::Skip,
            },
            None => StreamEvent::Skip,
        }
    } else {
        StreamEvent::Skip
    }
}

/// What the line `line` of the stream says.
pub fn event_of_line(line: &str) -> (r: StreamEvent)
    ensures
        r@ == anthropic_event(line@),
{
    if !starts_with(line, "data:") {
        return StreamEvent::Skip;
    }
    proof {
        reveal_strlit("data:");
    }
    let data = trimmed_after(line, 5);
    if chars_of(data.as_str()).len() == 0 {
        return StreamEvent::Skip;
    }
    match JsonDoc::parse(data.as_str()) {
        None => StreamEvent::Skip,
        Some(doc) => event_of_doc(&doc),
    }
}

/// Reads a chunk of a stream of Anthropic: the text that its lines add up
/// to, `None` where they add none, and an error of the API where a line
/// reports one.
pub fn anthropic_stream_parser(data: String) -> (r: Result<Option<String>, SchatError>)
    ensures
        match chunk_of(anthropic_events(lines_of(data@)), Seq::empty()) {
            ChunkView::Text(text) => r matches Ok(Some(t)) && t@ == text,
            ChunkView::Nothing => r matches Ok(None),
            ChunkView::Failed(words) => r matches Err(SchatError::Api(d)) && d@ == words,
        },
{
    let lines = split_lines(data.as_str());
    let ghost events = anthropic_events(lines_of(data@));
    let mut content = String::new();
    let n: usize = lines.len();
    let mut i: usize = 0;
    assert(events.skip(0) =~= events);
    while i < n
        invariant
            i <= n,
            n == lines.len(),
            texts_of(lines@) == lines_of(data@),
            events == anthropic_events(lines_of(data@)),
            chunk_of(events, Seq::empty()) == chunk_of(events.skip(i as int), content@),
        decreases n - i,
    {
        assert(events.skip(i as int)[0] == anthropic_event(lines@[i as int]@)) by {
            assert(texts_of(lines@)[i as int] == lines@[i as int]@);
        }
        assert(events.skip(i as int).drop_first() =~= events.skip(i + 1));
        match event_of_line(lines[i].as_str()) {
            StreamEvent::Skip => {},
            StreamEvent::Text(text) => {
                content.append(text.as_str());
            },
            StreamEvent::Done => {
                return Ok(None);
            },
            StreamEvent::Fail(words) => {
                return Err(SchatError::Api(words));
            },
        }
        i += 1;
    }
    assert(events.skip(n as int) =~= Seq::<EventView>::empty()) by {
        assert(events.len() == lines@.len());
    }
    Ok(finished_chunk(content))
}

} // verus!
