//! A provider behind any endpoint that speaks the chat-completion format.

use crate::error::SchatError;
use crate::providers::base_client::HttpClient;
use crate::providers::openai_style::{
    bearer_client, bearer_header, build_request, completion_of, first_choice, opt_pairs,
    wire_messages, wire_view, ChatCompletionRequest,
};
use crate::json::{
    first_item, json_document, json_error_text, member_of, text_member_of, JsonDoc, JsonValue,
};
use crate::providers::stream::{chunk_of, finished_chunk, ChunkView, EventView, StreamEvent};
use crate::providers::Message;
use crate::strings::{
    lines_of, occurs_at, split_lines, starts_with, text_eq, texts_of, trim, trimmed_after,
};
use vstd::prelude::*;

verus! {

#[derive(Debug)]
pub struct OpenAICompatibleProvider {
    pub client: HttpClient,
    pub model: String,
}

impl OpenAICompatibleProvider {
    pub fn new(
        base_url: String,
        api_key: String,
        model: String,
        extra_headers: Option<Vec<(String, String)>>,
    ) -> (r: OpenAICompatibleProvider)
        ensures
            r.client@ == bearer_client(base_url@, api_key@, opt_pairs(extra_headers)),
            r.model@ == model@,
    {
        let auth = bearer_header(api_key.as_str());
        OpenAICompatibleProvider {
            client: HttpClient::new(base_url, Some(auth), extra_headers),
            model,
        }
    }

    /// The request that goes on with `messages`.
    pub fn request(&self, messages: &Vec<Message>, stream: Option<bool>) -> (r:
        ChatCompletionRequest)
        ensures
            r.model@ == self.model@,
            r.stream == stream,
            wire_view(r.messages@) == wire_messages(crate::providers::conversation(messages@)),
    {
        build_request(self.model.as_str(), messages, stream)
    }

    /// The response that the choices of a completion stand for.
    pub fn completion(contents: &Vec<String>) -> (r: Result<String, SchatError>)
        ensures
            match first_choice(contents@) {
                Some(text) => r matches Ok(t) && t@ == text,
                None => r matches Err(SchatError::Api(d)) && d@ == "No choices in API response"@,
            },
    {
        completion_of(contents)
    }
}

/// The text that a document of the stream adds: the content of the delta
/// of its first choice.
pub open spec fn openai_delta(doc: JsonValue) -> Option<Seq<char>> {
    match member_of(doc, "choices"@) {
        Some(choices) => match first_item(choices) {
            Some(choice) => match member_of(choice, "delta"@) {
                Some(delta) => text_member_of(delta, "content"@),
                None => None,
            },
            None => None,
        },
        None => None,
    }
}

/// What a line of the stream says. Only a line that starts with `data:`
/// counts, by what follows, trimmed: `[DONE]` ends the stream; a JSON
/// document adds the text of its delta, if it has one; anything else fails
/// the stream.
pub open spec fn openai_event(line: Seq<char>) -> EventView {
    if !occurs_at(line, "data:"@, 0) {
        EventView::Skip
    } else {
        let data = trim(line.skip("data:"@.len() as int));
        if data == "[DONE]"@ {
            EventView::Done
        } else {
            match json_document(data) {
                None => EventView::Fail("Failed to parse stream data: "@ + json_error_text(data)),
                Some(doc) => match openai_delta(doc) {
                    Some(text) => EventView::Text(text),
                    None => EventView::Skip,
                },
            }
        }
    }
}

/// The events of the lines of a chunk.
pub open spec fn openai_events(lines: Seq<Seq<char>>) -> Seq<EventView> {
    lines.map_values(|l: Seq<char>| openai_event(l))
}

fn delta_of(doc: &JsonDoc) -> (r: Option<String>)
    ensures
        r is Some <==> openai_delta(doc@) is Some,
        r matches Some(t) ==> openai_delta(doc@) == Some(t@),
{
    match doc.get("choices") {
        Some(choices) => match choices.first() {
            Some(choice) => match choice.get("delta") {
                Some(delta) => delta.text_member("content"),
                None => None,
            },
            None => None,
        },
        None => None,
    }
}

/// What the line `line` of the stream says.
pub fn event_of_line(line: &str) -> (r: StreamEvent)
    ensures
        r@ == openai_event(line@),
{
    if !starts_with(line, "data:") {
        return StreamEvent::Skip;
    }
    proof {
        reveal_strlit("data:");
    }
    let data = trimmed_after(line, 5);
    if text_eq(data.as_str(), "[DONE]") {
        return StreamEvent::Done;
    }
    match JsonDoc::parse_or_message(data.as_str()) {
        Err(message) => {
            let mut words = String::from_str("Failed to parse stream data: ");
            words.append(message.as_str());
            StreamEvent::Fail(words)
        },
        Ok(doc) => match delta_of(&doc) {
            Some(text) => StreamEvent::Text(text),
            None => StreamEvent::Skip,
        },
    }
}

/// Reads a chunk of a stream in the chat-completion format: the text that
/// its lines add up to, `None` where they add no text or end the stream,
/// and an error of serialization where a line cannot be read.
pub fn openai_stream_parser(data: String) -> (r: Result<Option<String>, SchatError>)
    ensures
        match chunk_of(openai_events(lines_of(data@)), Seq::empty()) {
            ChunkView::Text(text) => r matches Ok(Some(t)) && t@ == text,
            ChunkView::Nothing => r matches Ok(None),
            ChunkView::Failed(words) => r matches Err(SchatError::Serialization(d)) && d@ == words,
        },
{
    let lines = split_lines(data.as_str());
    let ghost events = openai_events(lines_of(data@));
    let mut content = String::new();
    let n: usize = lines.len();
    let mut i: usize = 0;
    assert(events.skip(0) =~= events);
    while i < n
        invariant
            i <= n,
            n == lines.len(),
            texts_of(lines@) == lines_of(data@),
            events == openai_events(lines_of(data@)),
            chunk_of(events, Seq::empty()) == chunk_of(events.skip(i as int), content@),
        decreases n - i,
    {
        assert(events.skip(i as int)[0] == openai_event(lines@[i as int]@)) by {
            assert(texts_of(lines@)[i as int] == lines@[i as int]@);
        }
        assert(events.skip(i as int).drop_first() =~= events.skip(i + 1));
        match event_of_line(lines[i].as_str()) {
            StreamEvent::Skip => {},
            StreamEvent::Text(text) => {
                content.append(text.as_str());
            },
            StreamEvent::Done => {
                return Ok(None);
            },
            StreamEvent::Fail(words) => {
                return Err(SchatError::Serialization(words));
            },
        }
        i += 1;
    }
    assert(events.skip(n as int) =~= Seq::<EventView>::empty()) by {
        assert(events.len() == lines@.len());
    }
    Ok(finished_chunk(content))
}

} // verus!
