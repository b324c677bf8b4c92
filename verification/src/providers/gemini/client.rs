//! The requests to Gemini.

use crate::error::SchatError;
use crate::providers::base_client::{HttpClient, HttpClientView};
use crate::providers::gemini::types::{
    contents_view, instruction_view, single_part, GeminiContentPart, GeminiRequest,
    SystemInstruction,
};
use crate::providers::openai_style::{dialogue, first_system, opt_pairs};
use crate::json::{
    first_item, json_document, json_error_text, member_of, text_member_of, JsonDoc, JsonValue,
};
use crate::providers::stream::{chunk_of, finished_chunk, ChunkView, EventView, StreamEvent};
use crate::providers::{conversation, Message, MessageView, Role};
use crate::strings::{
    chars_of, lines_of, occurs_at, slice_of, split_lines, starts_with, text_eq, texts_of, trim,
    trimmed, trimmed_after,
};
use vstd::prelude::*;

verus! {

#[derive(Debug)]
pub struct GeminiClient {
    pub model: String,
    pub client: HttpClient,
}

/// The client of Gemini at `base_url`: the key goes into the query.
pub open spec fn gemini_client(
    base_url: Seq<char>,
    key: Seq<char>,
    extra_headers: Seq<(Seq<char>, Seq<char>)>,
) -> HttpClientView {
    HttpClientView {
        base_url,
        auth_header: None,
        extra_headers,
        query_params: seq![("key"@, key)],
    }
}

/// The contents of a request: every turn but the system messages, each with
/// its text as its one part; the assistant goes under the name `model`.
pub open spec fn contents_of(messages: Seq<MessageView>) -> Seq<(Seq<char>, Seq<Seq<char>>)> {
    dialogue(messages, "model"@).map_values(|t: (Seq<char>, Seq<char>)| (t.0, seq![t.1]))
}

/// The system instruction of a request: the first system message, as one
/// part.
pub open spec fn instruction_of(messages: Seq<MessageView>) -> Option<Seq<Seq<char>>> {
    match first_system(messages, 0) {
        Some(text) => Some(seq![text]),
        None => None,
    }
}

/// The path that asks `model` for content, at once or as a stream.
pub open spec fn generate_path(model: Seq<char>, stream: bool) -> Seq<char> {
    if stream {
        "v1beta/models/"@ + model + ":streamGenerateContent"@
    } else {
        "v1beta/models/"@ + model + ":generateContent"@
    }
}

impl GeminiClient {
    pub fn new(
        base_url: String,
        api_key: String,
        model: String,
        extra_headers: Option<Vec<(String, String)>>,
    ) -> (r: GeminiClient)
        ensures
            r.client@ == gemini_client(base_url@, api_key@, opt_pairs(extra_headers)),
            r.model@ == model@,
    {
        let mut client = HttpClient::new(base_url, None, extra_headers);
        client.add_query_param("key", api_key);
        assert(client@.query_params =~= seq![("key"@, api_key@)]);
        GeminiClient { client, model }
    }

    /// The path that asks the model for content.
    pub fn path(&self, stream: bool) -> (r: String)
        ensures
            r@ == generate_path(self.model@, stream),
    {
        let mut path = String::from_str("v1beta/models/");
        path.append(self.model.as_str());
        if stream {
            path.append(":streamGenerateContent");
        } else {
            path.append(":generateContent");
        }
        path
    }

    /// The request that goes on with `messages`.
    pub fn build_payload(&self, messages: &Vec<Message>) -> (r: Result<GeminiRequest, SchatError>)
        ensures
            r matches Ok(request) && contents_view(request.contents@) == contents_of(
                conversation(messages@),
            ) && instruction_view(request.system_instruction) == instruction_of(
                conversation(messages@),
            ),
    {
        let ghost all = conversation(messages@);
        let mut contents: Vec<GeminiContentPart> = Vec::new();
        let mut system_instruction: Option<SystemInstruction> = None;
        let n: usize = messages.len();
        let mut i: usize = 0;
        assert(contents_view(contents@) =~= contents_of(all.take(0)));
        while i < n
            invariant
                i <= n,
                n == messages.len(),
                all == conversation(messages@),
                contents_view(contents@) == contents_of(all.take(i as int)),
                instruction_view(system_instruction) == instruction_of(all.take(i as int)),
            decreases n - i,
        {
            assert(all.take(i + 1).drop_last() =~= all.take(i as int));
            assert(all.take(i + 1).last() == messages@[i as int]@);
            let ghost before = contents_view(contents@);
            let ghost text = messages@[i as int].content@;
            proof {
                lemma_first_system_push(all.take(i as int), messages@[i as int]@);
                assert(all.take(i as int).push(messages@[i as int]@) =~= all.take(i + 1));
            }
            match messages[i].role {
                Role::System => {
                    if system_instruction.is_none() {
                        system_instruction = Some(
                            SystemInstruction { parts: single_part(messages[i].content.as_str()) },
                        );
                    }
                },
                Role::User => {
                    contents.push(
                        GeminiContentPart {
                            role: String::from_str("user"),
                            parts: single_part(messages[i].content.as_str()),
                        },
                    );
                    assert(contents_view(contents@) =~= before.push(("user"@, seq![text])));
                    assert(contents_of(all.take(i + 1)) =~= before.push(("user"@, seq![text])));
                },
                Role::Assistant => {
                    contents.push(
                        GeminiContentPart {
                            role: String::from_str("model"),
                            parts: single_part(messages[i].content.as_str()),
                        },
                    );
                    assert(contents_view(contents@) =~= before.push(("model"@, seq![text])));
                    assert(contents_of(all.take(i + 1)) =~= before.push(("model"@, seq![text])));
                },
            }
            i += 1;
        }
        assert(all.take(n as int) =~= all);
        Ok(GeminiRequest { contents, system_instruction })
    }
}

/// The first system message of a conversation with one more message: that
/// of the conversation, if it has one; else the new message, if it is one.
pub proof fn lemma_first_system_push(messages: Seq<MessageView>, last: MessageView)
    ensures
        first_system(messages.push(last), 0) == match first_system(messages, 0) {
            Some(text) => Some(text),
            None => if last.role == Role::System {
                Some(last.content)
            } else {
                None
            },
        },
{
    lemma_first_system_push_from(messages, last, 0);
}

proof fn lemma_first_system_push_from(messages: Seq<MessageView>, last: MessageView, from: int)
    requires
        0 <= from <= messages.len(),
    ensures
        first_system(messages.push(last), from) == match first_system(messages, from) {
            Some(text) => Some(text),
            None => if last.role == Role::System {
                Some(last.content)
            } else {
                None
            },
        },
    decreases messages.len() - from,
{
    let longer = messages.push(last);
    if from < messages.len() {
        assert(longer[from] == messages[from]);
        if messages[from].role != Role::System {
            lemma_first_system_push_from(messages, last, from + 1);
        }
    } else {
        assert(longer[from] == last);
        assert(first_system(longer, from + 1) is None);
    }
}

/// The text that a document of the stream adds: that of the first part of
/// the content of its first candidate.
pub open spec fn gemini_delta(doc: JsonValue) -> Option<Seq<char>> {
    match member_of(doc, "candidates"@) {
        Some(candidates) => match first_item(candidates) {
            Some(candidate) => match member_of(candidate, "content"@) {
                Some(content) => match member_of(content, "parts"@) {
                    Some(parts) => match first_item(parts) {
                        Some(part) => text_member_of(part, "text"@),
                        None => None,
                    },
                    None => None,
                },
                None => None,
            },
            None => None,
        },
        None => None,
    }
}

/// The data of a line: what follows `data: ` where the line starts with
/// it, else the line; trimmed either way.
pub open spec fn gemini_data(line: Seq<char>) -> Seq<char> {
    if occurs_at(line, "data: "@, 0) {
        trim(line.skip("data: "@.len() as int))
    } else {
        trim(line)
    }
}

/// The data without the comma that may stand before it.
pub open spec fn without_comma(data: Seq<char>) -> Seq<char> {
    if data.len() > 0 && data[0] == ',' {
        data.skip(1)
    } else {
        data
    }
}

/// What a line of the stream says. Empty data and the brackets of the
/// array count for nothing. Else the data, without the comma that may stand
/// before it, has to be empty or a JSON document, which adds the text of
/// its first candidate, if it has one; anything else fails the stream.
pub open spec fn gemini_event(line: Seq<char>) -> EventView {
    let data = gemini_data(line);
    let clean = without_comma(data);
    if data.len() == 0 || data == "["@ || data == "]"@ || clean.len() == 0 {
        EventView::Skip
    } else {
        match json_document(clean) {
            None => EventView::Fail(
                "Failed to parse stream data: "@ + json_error_text(clean) + ". Data: '"@ + clean
                    + "'"@,
            ),
            Some(doc) => match gemini_delta(doc) {
                Some(text) => EventView::Text(text),
                None => EventView::Skip,
            },
        }
    }
}

/// The events of the lines of a chunk.
pub open spec fn gemini_events(lines: Seq<Seq<char>>) -> Seq<EventView> {
    lines.map_values(|l: Seq<char>| gemini_event(l))
}

fn delta_of(doc: &JsonDoc) -> (r: Option<String>)
    ensures
        r is Some <==> gemini_delta(doc@) is Some,
        r matches Some(t) ==> gemini_delta(doc@) == Some(t@),
{
    match doc.get("candidates") {
        Some(candidates) => match candidates.first() {
            Some(candidate) => match candidate.get("content") {
                Some(content) => match content.get("parts") {
                    Some(parts) => match parts.first() {
                        Some(part) => part.text_member("text"),
                        None => None,
                    },
                    None => None,
                },
                None => None,
            },
            None => None,
        },
        None => None,
    }
}

/// What the line `line` of the stream says.
pub fn event_of_line(line: &str) -> (r: StreamEvent)
    ensures
        r@ == gemini_event(line@),
{
    let data = if starts_with(line, "data: ") {
        proof {
            reveal_strlit("data: ");
        }
        trimmed_after(line, 6)
    } else {
        trimmed(line)
    };
    let d = chars_of(data.as_str());
    if d.len() == 0 || text_eq(data.as_str(), "[") || text_eq(data.as_str(), "]") {
        return StreamEvent::Skip;
    }
    let clean = if d[0] == ',' {
        let n: usize = d.len();
        assert(d@.subrange(1, n as int) =~= d@.skip(1));
        slice_of(data.as_str(), 1, n)
    } else {
        data
    };
    if chars_of(clean.as_str()).len() == 0 {
        return StreamEvent::Skip;
    }
    match JsonDoc::parse_or_message(clean.as_str()) {
        Err(message) => {
            let mut words = String::from_str("Failed to parse stream data: ");
            words.append(message.as_str());
            words.append(". Data: '");
            words.append(clean.as_str());
            words.append("'");
            StreamEvent::Fail(words)
        },
        Ok(doc) => match delta_of(&doc) {
            Some(text) => StreamEvent::Text(text),
            None => StreamEvent::Skip,
        },
    }
}

/// Reads a chunk of a stream of Gemini: the text that its lines add up to,
/// `None` where they add none, and an error of serialization where a line
/// cannot be read.
pub fn gemini_stream_parser(data: String) -> (r: Result<Option<String>, SchatError>)
    ensures
        match chunk_of(gemini_events(lines_of(data@)), Seq::empty()) {
            ChunkView::Text(text) => r matches Ok(Some(t)) && t@ == text,
            ChunkView::Nothing => r matches Ok(None),
            ChunkView::Failed(words) => r matches Err(SchatError::Serialization(d)) && d@ == words,
        },
{
    let lines = split_lines(data.as_str());
    let ghost events = gemini_events(lines_of(data@));
    let mut content = String::new();
    let n: usize = lines.len();
    let mut i: usize = 0;
    assert(events.skip(0) =~= events);
    while i < n
        invariant
            i <= n,
            n == lines.len(),
            texts_of(lines@) == lines_of(data@),
            events == gemini_events(lines_of(data@)),
            chunk_of(events, Seq::empty()) == chunk_of(events.skip(i as int), content@),
        decreases n - i,
    {
        assert(events.skip(i as int)[0] == gemini_event(lines@[i as int]@)) by {
            assert(texts_of(lines@)[i as int] == lines@[i as int]@);
        }
        assert(events.skip(i as int).drop_first() =~= events.skip(i + 1));
        match event_of_line(lines[i].as_str()) {
            StreamEvent::Skip => {},
            StreamEvent::Text(text) => {
                content.append(text.as_str());
            },
            StreamEvent::Done => {
                return Ok(None);
            },
            StreamEvent::Fail(words) => {
                return Err(SchatError::Serialization(words));
            },
        }
        i += 1;
    }
    assert(events.skip(n as int) =~= Seq::<EventView>::empty()) by {
        assert(events.len() == lines@.len());
    }
    Ok(finished_chunk(content))
}

} // verus!
