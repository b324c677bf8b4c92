//! The state of a chat session, and the slash commands that change it.

pub mod dispatcher;
pub mod handler;
pub mod registry;

use crate::display::DisplayMode;
use crate::error::SchatError;
use crate::mcp::{Tool, ToolSet};
use crate::providers::{conversation, Message, MessageView, Role};
use vstd::prelude::*;

verus! {

/// The instruction that every conversation starts with.
pub open spec fn system_instruction() -> Seq<char> {
    "You are a helpful assistant."@
}

/// The instruction that every conversation starts with.
pub fn system_prompt() -> (r: &'static str)
    ensures
        r@ == system_instruction(),
{
    "You are a helpful assistant."
}

/// A conversation starts with a system message, and holds no other.
pub open spec fn one_system_message(messages: Seq<MessageView>) -> bool {
    &&& messages.len() >= 1
    &&& messages[0].role == Role::System
    &&& forall|i: int| 1 <= i < messages.len() ==> (#[trigger] messages[i]).role != Role::System
}

/// A chat session: the conversation, the model in use, whether the session
/// goes on, and how much of the tool activity is shown.
pub struct ChatState {
    pub messages: Vec<Message>,
    pub model: String,
    pub should_continue: bool,
    pub display_mode: DisplayMode,
}

/// A session as a mathematical value.
pub struct ChatView {
    pub messages: Seq<MessageView>,
    pub model: Seq<char>,
    pub should_continue: bool,
    pub display_mode: DisplayMode,
}

impl View for ChatState {
    type V = ChatView;

    open spec fn view(&self) -> ChatView {
        ChatView {
            messages: conversation(self.messages@),
            model: self.model@,
            should_continue: self.should_continue,
            display_mode: self.display_mode,
        }
    }
}

impl ChatState {
    /// The conversation starts with its one system message.
    pub open spec fn well_formed(&self) -> bool {
        one_system_message(self@.messages)
    }

    /// A fresh session on `model`: the conversation holds the system
    /// instruction and nothing else.
    pub fn new(model: &str) -> (r: ChatState)
        ensures
            r@ == (ChatView {
                messages: seq![
                    MessageView { role: Role::System, content: system_instruction() },
                ],
                model: model@,
                should_continue: true,
                display_mode: DisplayMode::Minimal,
            }),
            r.well_formed(),
    {
        let mut messages: Vec<Message> = Vec::new();
        messages.push(Message::new(Role::System, system_prompt()));
        let r = ChatState {
            messages,
            model: String::from_str(model),
            should_continue: true,
            display_mode: DisplayMode::Minimal,
        };
        assert(r@.messages =~= seq![
            MessageView { role: Role::System, content: system_instruction() },
        ]);
        r
    }

    /// Appends a message. What was there stays, in its order; nothing else
    /// of the session changes.
    pub fn push(&mut self, message: Message)
        ensures
            final(self)@ == (ChatView {
                messages: old(self)@.messages.push(message@),
                ..old(self)@
            }),
            old(self).well_formed() && message.role != Role::System ==> final(self).well_formed(),
    {
        let ghost before = self.messages@;
        self.messages.push(message);
        assert(conversation(self.messages@) =~= conversation(before).push(message@));
    }

    /// Starts the conversation over: it holds the system instruction and
    /// nothing else.
    pub fn clear(&mut self)
        ensures
            final(self)@ == (ChatView {
                messages: seq![
                    MessageView { role: Role::System, content: system_instruction() },
                ],
                ..old(self)@
            }),
            final(self).well_formed(),
    {
        let mut messages: Vec<Message> = Vec::new();
        messages.push(Message::new(Role::System, system_prompt()));
        self.messages = messages;
        assert(self@.messages =~= seq![
            MessageView { role: Role::System, content: system_instruction() },
        ]);
    }
}

/// Appending never removes or reorders what a conversation held: every
/// message keeps its index.
pub proof fn law_append_only(before: Seq<MessageView>, message: MessageView, i: int)
    requires
        0 <= i < before.len(),
    ensures
        before.push(message).len() == before.len() + 1,
        before.push(message)[i] == before[i],
        before.push(message).take(before.len() as int) == before,
{
    assert(before.push(message).take(before.len() as int) =~= before);
}

/// The line that presents one tool to the model.
pub open spec fn tool_line(tool: Tool) -> Seq<char> {
    "- "@ + tool.name@ + ": "@ + tool.description@ + "\n"@
}

/// The lines that present the tools, in the order of registration.
pub open spec fn tool_lines(tools: Seq<Tool>) -> Seq<char>
    decreases tools.len(),
{
    if tools.len() == 0 {
        Seq::empty()
    } else {
        tool_lines(tools.drop_last()) + tool_line(tools.last())
    }
}

/// How a tool is to be called, in the words for the model.
pub open spec fn calling_convention() -> Seq<char> {
    "\nWhen you need to use a tool, output a JSON object with these fields:\n{\n  \"tool\": \"tool_name\",\n  \"arguments\": {\n    \"param1\": value1,\n    \"param2\": value2\n  }\n}\n"@
}

/// What the model is told of the tools.
pub open spec fn tool_instructions(tools: Seq<Tool>) -> Seq<char> {
    "You have access to the following tools:\n"@ + tool_lines(tools) + calling_convention()
}

/// What the model is told of the tools.
pub fn tool_instructions_for(tools: &ToolSet) -> (r: String)
    ensures
        r@ == tool_instructions(tools.tools@),
{
    let mut text = String::from_str("You have access to the following tools:\n");
    let ghost head = text@;
    let n: usize = tools.tools.len();
    let mut i: usize = 0;
    assert(text@ =~= head + tool_lines(tools.tools@.take(0)));
    while i < n
        invariant
            i <= n,
            n == tools.tools.len(),
            text@ == head + tool_lines(tools.tools@.take(i as int)),
        decreases n - i,
    {
        assert(tools.tools@.take(i + 1).drop_last() =~= tools.tools@.take(i as int));
        assert(tools.tools@.take(i + 1).last() == tools.tools@[i as int]);
        let ghost before = text@;
        text.append("- ");
        text.append(tools.tools[i].name.as_str());
        text.append(": ");
        text.append(tools.tools[i].description.as_str());
        text.append("\n");
        assert(text@ =~= before + tool_line(tools.tools@[i as int]));
        assert(text@ =~= head + tool_lines(tools.tools@.take(i + 1)));
        i += 1;
    }
    assert(tools.tools@.take(n as int) =~= tools.tools@);
    text.append(
        "\nWhen you need to use a tool, output a JSON object with these fields:\n{\n  \"tool\": \"tool_name\",\n  \"arguments\": {\n    \"param1\": value1,\n    \"param2\": value2\n  }\n}\n",
    );
    text
}

impl ChatState {
    /// A fresh session on `model` that knows of `tools`. Where tools are
    /// registered, the one system message tells of them before it gives the
    /// system instruction; without tools it is the session of `new`.
    pub fn with_tools(model: &str, tools: &ToolSet) -> (r: ChatState)
        ensures
            r@ == (ChatView {
                messages: seq![
                    MessageView {
                        role: Role::System,
                        content: if tools.tools@.len() == 0 {
                            system_instruction()
                        } else {
                            tool_instructions(tools.tools@) + system_instruction()
                        },
                    },
                ],
                model: model@,
                should_continue: true,
                display_mode: DisplayMode::Minimal,
            }),
            r.well_formed(),
    {
        if tools.tools.len() == 0 {
            return ChatState::new(model);
        }
        let mut content = tool_instructions_for(tools);
        content.append(system_prompt());
        let mut messages: Vec<Message> = Vec::new();
        messages.push(Message { role: Role::System, content });
        let r = ChatState {
            messages,
            model: String::from_str(model),
            should_continue: true,
            display_mode: DisplayMode::Minimal,
        };
        assert(r@.messages =~= seq![
            MessageView {
                role: Role::System,
                content: tool_instructions(tools.tools@) + system_instruction(),
            },
        ]);
        r
    }

    /// Whether `messages` start with a system message and hold no other.
    pub fn is_conversation(messages: &Vec<Message>) -> (r: bool)
        ensures
            r == one_system_message(conversation(messages@)),
    {
        let n: usize = messages.len();
        if n == 0 {
            return false;
        }
        let ghost all = conversation(messages@);
        assert(all[0] == messages@[0]@);
        if messages[0].role != Role::System {
            return false;
        }
        let mut i: usize = 1;
        while i < n
            invariant
                1 <= i <= n,
                n == messages.len(),
                all == conversation(messages@),
                forall|k: int| 1 <= k < i ==> (#[trigger] all[k]).role != Role::System,
            decreases n - i,
        {
            assert(all[i as int] == messages@[i as int]@);
            if messages[i].role == Role::System {
                return false;
            }
            i += 1;
        }
        true
    }

    /// Puts a saved conversation in the place of the present one. A
    /// conversation that does not start with its one system message is
    /// refused, and the session stays as it is.
    pub fn restore(&mut self, messages: Vec<Message>) -> (r: Result<(), SchatError>)
        ensures
            one_system_message(conversation(messages@)) ==> r is Ok && final(self)@ == (ChatView {
                messages: conversation(messages@),
                ..old(self)@
            }),
            !one_system_message(conversation(messages@)) ==> final(self)@ == old(self)@ && (
            r matches Err(SchatError::Input(d)) && d@
                == "A conversation starts with its one system message"@),
    {
        if ChatState::is_conversation(&messages) {
            self.messages = messages;
            Ok(())
        } else {
            Err(
                SchatError::Input(
                    String::from_str("A conversation starts with its one system message"),
                ),
            )
        }
    }
}

} // verus!
