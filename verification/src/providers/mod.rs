//! Conversations: messages tagged with the role of who wrote them.

pub mod anthropic;
pub mod base_client;
pub mod factory;
pub mod gemini;
pub mod openai;
pub mod openai_compatible;
pub mod openai_style;
pub mod openrouter;
pub mod stream;

use crate::strings::{chars_of, find, find_first, find_from, lemma_find_from, slice_of, trim, trimmed};
use vstd::prelude::*;

verus! {

/// Who wrote a message.
#[derive(Debug, Clone, Copy, PartialEq, Eq, Structural)]
pub enum Role {
    System,
    User,
    Assistant,
}

/// One turn of a conversation.
#[derive(Debug)]
pub struct Message {
    pub role: Role,
    pub content: String,
}

/// A message as a mathematical value.
pub struct MessageView {
    pub role: Role,
    pub content: Seq<char>,
}

impl View for Message {
    type V = MessageView;

    open spec fn view(&self) -> MessageView {
        MessageView { role: self.role, content: self.content@ }
    }
}

impl Clone for Message {
    fn clone(&self) -> (r: Message)
        ensures
            r@ == self@,
    {
        Message { role: self.role, content: self.content.clone() }
    }
}

/// A conversation as a mathematical value: its messages in order.
pub open spec fn conversation(messages: Seq<Message>) -> Seq<MessageView> {
    messages.map_values(|m: Message| m@)
}

impl Message {
    /// A message of `role` that says `content`.
    pub fn new(role: Role, content: &str) -> (r: Message)
        ensures
            r@ == (MessageView { role, content: content@ }),
    {
        Message { role, content: String::from_str(content) }
    }
}

/// A copy of a conversation.
pub fn copy_messages(messages: &Vec<Message>) -> (r: Vec<Message>)
    ensures
        conversation(r@) == conversation(messages@),
{
    let mut r: Vec<Message> = Vec::new();
    let n: usize = messages.len();
    let mut i: usize = 0;
    while i < n
        invariant
            i <= n,
            n == messages.len(),
            r.len() == i,
            forall|k: int| 0 <= k < i ==> r@[k]@ == messages@[k]@,
        decreases n - i,
    {
        r.push(messages[i].clone());
        i += 1;
    }
    assert(conversation(r@) =~= conversation(messages@));
    r
}

/// The name of a role in the chat-completion format.
pub open spec fn role_wire_name(role: Role) -> Seq<char> {
    match role {
        Role::System => "system"@,
        Role::User => "user"@,
        Role::Assistant => "assistant"@,
    }
}

/// The name of a role in the chat-completion format.
pub fn role_name(role: Role) -> (r: &'static str)
    ensures
        r@ == role_wire_name(role),
{
    match role {
        Role::System => "system",
        Role::User => "user",
        Role::Assistant => "assistant",
    }
}

/// The text of an optional key; empty where there is none.
pub open spec fn key_text(key: Option<String>) -> Seq<char> {
    match key {
        Some(k) => k@,
        None => Seq::empty(),
    }
}

/// The key, or the empty text where there is none.
pub fn key_or_empty(key: Option<String>) -> (r: String)
    ensures
        r@ == key_text(key),
{
    match key {
        Some(k) => k,
        None => String::new(),
    }
}

/// The fence that opens or closes a block of code.
pub open spec fn code_fence() -> Seq<char> {
    "```"@
}

/// The code of a fenced block without its first line, which names the
/// language; a block of one line is taken as it is. Trimmed either way.
pub open spec fn block_code(block: Seq<char>) -> Seq<char> {
    match find_first(block, "\n"@) {
        Some(newline) => trim(block.subrange(newline + 1, block.len() as int)),
        None => trim(block),
    }
}

/// What stands between the first pair of backquotes of `content`.
pub open spec fn quoted_part(content: Seq<char>) -> Option<Seq<char>> {
    match find_first(content, "`"@) {
        Some(start) => match find_from(content, "`"@, start + 1) {
            Some(end) => Some(content.subrange(start + 1, end)),
            None => None,
        },
        None => None,
    }
}

/// The first line of `content`.
pub open spec fn first_line(content: Seq<char>) -> Seq<char> {
    match find_first(content, "\n"@) {
        Some(newline) => content.subrange(0, newline),
        None => content,
    }
}

/// The command that a response holds. The response is trimmed first. If it
/// holds a fence, the command is the code of the first fenced block, which
/// runs to the next fence or to the end. Else, if it holds a pair of
/// backquotes, the command is what stands between the first pair. Else it is
/// the first line. The command is trimmed; an empty response gives an empty
/// command.
pub open spec fn command_of(raw: Seq<char>) -> Seq<char> {
    let content = trim(raw);
    if content.len() == 0 {
        Seq::empty()
    } else {
        match find_first(content, code_fence()) {
            Some(start) => {
                let from = start + code_fence().len();
                match find_from(content, code_fence(), from) {
                    Some(end) => block_code(content.subrange(from, end)),
                    None => block_code(content.subrange(from, content.len() as int)),
                }
            },
            None => match quoted_part(content) {
                Some(quoted) => trim(quoted),
                None => trim(first_line(content)),
            },
        }
    }
}

/// The code of a fenced block.
fn code_of_block(block: &str) -> (r: String)
    ensures
        r@ == block_code(block@),
{
    let b = chars_of(block);
    let newline = chars_of("\n");
    match find(&b, &newline, 0) {
        Some(at) => {
            proof {
                lemma_find_from(b@, newline@, 0);
                reveal_strlit("\n");
            }
            let n: usize = b.len();
            let rest = slice_of(block, at + 1, n);
            trimmed(rest.as_str())
        },
        None => trimmed(block),
    }
}

/// Takes the command out of a response of the model.
pub fn process_response(content: &str) -> (r: String)
    ensures
        r@ == command_of(content@),
{
    let content = trimmed(content);
    let c = chars_of(content.as_str());
    if c.len() == 0 {
        return String::new();
    }
    let fence = chars_of("```");
    let tick = chars_of("`");
    let newline = chars_of("\n");
    match find(&c, &fence, 0) {
        Some(start) => {
            proof {
                lemma_find_from(c@, fence@, 0);
            }
            let from: usize = start + fence.len();
            let block = match find(&c, &fence, from) {
                Some(end) => {
                    proof {
                        lemma_find_from(c@, fence@, from as int);
                    }
                    slice_of(content.as_str(), from, end)
                },
                None => slice_of(content.as_str(), from, c.len()),
            };
            code_of_block(block.as_str())
        },
        None => {
            let quoted: Option<String> = match find(&c, &tick, 0) {
                Some(start) => {
                    proof {
                        lemma_find_from(c@, tick@, 0);
                        reveal_strlit("`");
                    }
                    match find(&c, &tick, start + 1) {
                        Some(end) => {
                            proof {
                                lemma_find_from(c@, tick@, start + 1);
                            }
                            Some(slice_of(content.as_str(), start + 1, end))
                        },
                        None => None,
                    }
                },
                None => None,
            };
            match quoted {
                Some(q) => trimmed(q.as_str()),
                None => match find(&c, &newline, 0) {
                    Some(at) => {
                        proof {
                            lemma_find_from(c@, newline@, 0);
                        }
                        trimmed(slice_of(content.as_str(), 0, at).as_str())
                    },
                    None => trimmed(content.as_str()),
                },
            }
        },
    }
}

} // verus!
