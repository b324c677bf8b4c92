//! The chat-completion format that OpenAI introduced and others took over.

use crate::error::SchatError;
use crate::providers::base_client::{HttpClient, HttpClientView, pairs};
use crate::providers::{role_name, role_wire_name, Message, MessageView};
use crate::strings::{chars_of, trim, trimmed};
use vstd::prelude::*;

verus! {

/// One message of a request.
#[derive(Debug)]
pub struct ChatCompletionMessage {
    pub role: String,
    pub content: String,
}

/// A request for a completion.
#[derive(Debug)]
pub struct ChatCompletionRequest {
    pub model: String,
    pub messages: Vec<ChatCompletionMessage>,
    pub stream: Option<bool>,
}

/// The messages of a request as a mathematical value: role and content.
pub open spec fn wire_view(messages: Seq<ChatCompletionMessage>) -> Seq<(Seq<char>, Seq<char>)> {
    messages.map_values(|m: ChatCompletionMessage| (m.role@, m.content@))
}

/// A conversation in the chat-completion format: every message, in order,
/// under the name of its role.
pub open spec fn wire_messages(messages: Seq<MessageView>) -> Seq<(Seq<char>, Seq<char>)> {
    messages.map_values(|m: MessageView| (role_wire_name(m.role), m.content))
}

/// The request that asks `model` to go on with `messages`.
pub fn build_request(model: &str, messages: &Vec<Message>, stream: Option<bool>) -> (r:
    ChatCompletionRequest)
    ensures
        r.model@ == model@,
        r.stream == stream,
        wire_view(r.messages@) == wire_messages(crate::providers::conversation(messages@)),
{
    let mut out: Vec<ChatCompletionMessage> = Vec::new();
    let n: usize = messages.len();
    let mut i: usize = 0;
    while i < n
        invariant
            i <= n,
            n == messages.len(),
            out.len() == i,
            forall|k: int|
                0 <= k < i ==> (#[trigger] out@[k]).role@ == role_wire_name(messages@[k].role)
                    && out@[k].content@ == messages@[k].content@,
        decreases n - i,
    {
        out.push(
            ChatCompletionMessage {
                role: String::from_str(role_name(messages[i].role)),
                content: messages[i].content.clone(),
            },
        );
        i += 1;
    }
    assert(wire_view(out@) =~= wire_messages(crate::providers::conversation(messages@)));
    ChatCompletionRequest { model: String::from_str(model), messages: out, stream }
}

/// The header that authenticates with a bearer token.
pub open spec fn bearer(key: Seq<char>) -> (Seq<char>, Seq<char>) {
    ("Authorization"@, "Bearer "@ + key)
}

/// The header that authenticates with the token `key`.
pub fn bearer_header(key: &str) -> (r: (String, String))
    ensures
        (r.0@, r.1@) == bearer(key@),
{
    let mut value = String::from_str("Bearer ");
    value.append(key);
    (String::from_str("Authorization"), value)
}

/// The client of a provider that speaks the chat-completion format.
pub open spec fn bearer_client(
    base_url: Seq<char>,
    key: Seq<char>,
    extra_headers: Seq<(Seq<char>, Seq<char>)>,
) -> HttpClientView {
    HttpClientView {
        base_url,
        auth_header: Some(bearer(key)),
        extra_headers,
        query_params: Seq::empty(),
    }
}

/// The headers that may come with a client; none where nothing is given.
pub open spec fn opt_pairs(o: Option<Vec<(String, String)>>) -> Seq<(Seq<char>, Seq<char>)> {
    match o {
        Some(h) => pairs(h@),
        None => Seq::empty(),
    }
}

/// A provider that speaks the chat-completion format.
#[derive(Debug)]
pub struct OpenAIStyleProvider {
    pub client: HttpClient,
    pub model: String,
}

impl OpenAIStyleProvider {
    pub fn new(
        base_url: String,
        api_key: String,
        model: String,
        extra_headers: Option<Vec<(String, String)>>,
    ) -> (r: OpenAIStyleProvider)
        ensures
            r.client@ == bearer_client(base_url@, api_key@, opt_pairs(extra_headers)),
            r.model@ == model@,
    {
        let auth = bearer_header(api_key.as_str());
        OpenAIStyleProvider { client: HttpClient::new(base_url, Some(auth), extra_headers), model }
    }

    /// The request that goes on with `messages`.
    pub fn request(&self, messages: &Vec<Message>, stream: Option<bool>) -> (r:
        ChatCompletionRequest)
        ensures
            r.model@ == self.model@,
            r.stream == stream,
            wire_view(r.messages@) == wire_messages(crate::providers::conversation(messages@)),
    {
        build_request(self.model.as_str(), messages, stream)
    }
}

/// What is made of the choices of a completion, given as the contents of
/// their messages: the first, trimmed; `None` without choices.
pub open spec fn first_choice(contents: Seq<String>) -> Option<Seq<char>> {
    if contents.len() == 0 {
        None
    } else {
        Some(trim(contents[0]@))
    }
}

/// Reads the choices of a completion: the first, trimmed. Without choices
/// the API is at fault.
pub fn completion_of(contents: &Vec<String>) -> (r: Result<String, SchatError>)
    ensures
        match first_choice(contents@) {
            Some(text) => r matches Ok(t) && t@ == text,
            None => r matches Err(SchatError::Api(d)) && d@ == "No choices in API response"@,
        },
{
    if contents.len() == 0 {
        return Err(SchatError::Api(String::from_str("No choices in API response")));
    }
    Ok(trimmed(contents[0].as_str()))
}

/// Reads the choices of a completion that must not be empty: the first,
/// trimmed. `None` stands for no choices, an empty text for an empty first
/// choice; `strict_completion` turns both into errors.
pub open spec fn strict_choice(contents: Seq<String>) -> Result<Seq<char>, Seq<char>> {
    match first_choice(contents) {
        None => Err("No choices in API response"@),
        Some(text) => if text.len() == 0 {
            Err("Empty command received from API"@)
        } else {
            Ok(text)
        },
    }
}

/// Reads the choices of a completion that must not be empty: the first,
/// trimmed, or the words that say what is wrong.
pub fn strict_completion(contents: &Vec<String>) -> (r: Result<String, String>)
    ensures
        match strict_choice(contents@) {
            Ok(text) => r matches Ok(t) && t@ == text,
            Err(words) => r matches Err(w) && w@ == words,
        },
{
    if contents.len() == 0 {
        return Err(String::from_str("No choices in API response"));
    }
    let text = trimmed(contents[0].as_str());
    let n: usize = chars_of(text.as_str()).len();
    if n == 0 {
        return Err(String::from_str("Empty command received from API"));
    }
    Ok(text)
}

/// The turns of a conversation without its system messages: the user's
/// under the name `user`, the assistant's under the name `assistant`.
pub open spec fn dialogue(messages: Seq<MessageView>, assistant: Seq<char>) -> Seq<
    (Seq<char>, Seq<char>),
>
    decreases messages.len(),
{
    if messages.len() == 0 {
        Seq::empty()
    } else {
        let before = dialogue(messages.drop_last(), assistant);
        match messages.last().role {
            crate::providers::Role::System => before,
            crate::providers::Role::User => before.push(("user"@, messages.last().content)),
            crate::providers::Role::Assistant => before.push(
                (assistant, messages.last().content),
            ),
        }
    }
}

/// The content of the first system message at or after `from`.
pub open spec fn first_system(messages: Seq<MessageView>, from: int) -> Option<Seq<char>>
    decreases messages.len() - from,
{
    if from < 0 || from >= messages.len() {
        None
    } else if messages[from].role == crate::providers::Role::System {
        Some(messages[from].content)
    } else {
        first_system(messages, from + 1)
    }
}

/// The turns of a conversation without its system messages.
pub fn dialogue_of(messages: &Vec<Message>, assistant: &str) -> (r: Vec<ChatCompletionMessage>)
    ensures
        wire_view(r@) == dialogue(crate::providers::conversation(messages@), assistant@),
{
    let mut out: Vec<ChatCompletionMessage> = Vec::new();
    let ghost all = crate::providers::conversation(messages@);
    let n: usize = messages.len();
    let mut i: usize = 0;
    assert(wire_view(out@) =~= dialogue(all.take(0), assistant@));
    while i < n
        invariant
            i <= n,
            n == messages.len(),
            all == crate::providers::conversation(messages@),
            wire_view(out@) == dialogue(all.take(i as int), assistant@),
        decreases n - i,
    {
        assert(all.take(i + 1).drop_last() =~= all.take(i as int));
        assert(all.take(i + 1).last() == messages@[i as int]@);
        let ghost before = wire_view(out@);
        match messages[i].role {
            crate::providers::Role::System => {},
            crate::providers::Role::User => {
                out.push(
                    ChatCompletionMessage {
                        role: String::from_str("user"),
                        content: messages[i].content.clone(),
                    },
                );
                assert(wire_view(out@) =~= before.push(("user"@, messages@[i as int].content@)));
            },
            crate::providers::Role::Assistant => {
                out.push(
                    ChatCompletionMessage {
                        role: String::from_str(assistant),
                        content: messages[i].content.clone(),
                    },
                );
                assert(wire_view(out@) =~= before.push(
                    (assistant@, messages@[i as int].content@),
                ));
            },
        }
        i += 1;
    }
    assert(all.take(n as int) =~= all);
    out
}

/// The content of the first system message.
pub fn system_of(messages: &Vec<Message>) -> (r: Option<String>)
    ensures
        crate::config::opt_text(r) == first_system(crate::providers::conversation(messages@), 0),
{
    let ghost all = crate::providers::conversation(messages@);
    let n: usize = messages.len();
    let mut i: usize = 0;
    while i < n
        invariant
            i <= n,
            n == messages.len(),
            all == crate::providers::conversation(messages@),
            first_system(all, 0) == first_system(all, i as int),
        decreases n - i,
    {
        assert(all[i as int] == messages@[i as int]@);
        match messages[i].role {
            crate::providers::Role::System => {
                return Some(messages[i].content.clone());
            },
            _ => {},
        }
        i += 1;
    }
    None
}

} // verus!
