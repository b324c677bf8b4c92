//! The slash commands.

use crate::commands::{system_instruction, ChatState, ChatView};
use crate::config::opt_text;
use crate::display::{mode_of, DisplayMode};
use crate::error::SchatError;
use crate::providers::{Message, MessageView, Role};
use crate::strings::texts_of;
use vstd::prelude::*;

verus! {

/// What is to be done after a command has changed the session.
#[derive(Debug)]
pub enum CommandEffect {
    /// Show this text, if there is one.
    Reply(Option<String>),
    /// Write the conversation to this file of the history directory; to a
    /// file named after the time where no name is given.
    SaveHistory(Option<String>),
    /// Read the conversation from this file of the history directory.
    LoadHistory(String),
    /// Show the files of the history directory.
    ListHistory,
    /// Delete this file of the history directory.
    DeleteHistory(String),
    /// Show what the display modes are and which one is in use.
    ShowDisplayHelp,
}

/// An effect as a mathematical value.
pub enum EffectView {
    Reply(Option<Seq<char>>),
    SaveHistory(Option<Seq<char>>),
    LoadHistory(Seq<char>),
    ListHistory,
    DeleteHistory(Seq<char>),
    ShowDisplayHelp,
}

impl View for CommandEffect {
    type V = EffectView;

    open spec fn view(&self) -> EffectView {
        match self {
            CommandEffect::Reply(t) => EffectView::Reply(opt_text(*t)),
            CommandEffect::SaveHistory(f) => EffectView::SaveHistory(opt_text(*f)),
            CommandEffect::LoadHistory(f) => EffectView::LoadHistory(f@),
            CommandEffect::ListHistory => EffectView::ListHistory,
            CommandEffect::DeleteHistory(f) => EffectView::DeleteHistory(f@),
            CommandEffect::ShowDisplayHelp => EffectView::ShowDisplayHelp,
        }
    }
}

/// The words of a command as a mathematical value.
pub open spec fn words(args: Seq<String>) -> Seq<Seq<char>> {
    args.map_values(|a: String| a@)
}

/// What a slash command does.
pub trait CommandHandler {
    /// The session after the command, and the effect that it asks for.
    spec fn outcome(&self, before: ChatView, args: Seq<Seq<char>>) -> (ChatView, EffectView);

    /// The line that describes the command.
    spec fn help_text(&self) -> Seq<char>;

    /// Runs the command on the session.
    fn execute(&self, state: &mut ChatState, args: &Vec<String>) -> (r: Result<
        CommandEffect,
        SchatError,
    >)
        ensures
            r matches Ok(effect) && (final(state)@, effect@) == self.outcome(
                old(state)@,
                words(args@),
            ),
    ;

    /// The line that describes the command.
    fn help(&self) -> (r: &'static str)
        ensures
            r@ == self.help_text(),
    ;
}

#[derive(Debug)]
pub struct QuitCommand;

#[derive(Debug)]
pub struct HelpCommand;

#[derive(Debug)]
pub struct ClearCommand;

#[derive(Debug)]
pub struct ModelCommand;

#[derive(Debug)]
pub struct SaveHistoryCommand;

#[derive(Debug)]
pub struct LoadHistoryCommand;

#[derive(Debug)]
pub struct ListHistoryCommand;

#[derive(Debug)]
pub struct DeleteHistoryCommand;

#[derive(Debug)]
pub struct DisplayCommand;

impl CommandHandler for QuitCommand {
    /// The session does not go on.
    open spec fn outcome(&self, before: ChatView, args: Seq<Seq<char>>) -> (ChatView, EffectView) {
        (ChatView { should_continue: false, ..before }, EffectView::Reply(None))
    }

    open spec fn help_text(&self) -> Seq<char> {
        "/quit - Exit the chat session"@
    }

    fn execute(&self, state: &mut ChatState, args: &Vec<String>) -> (r: Result<
        CommandEffect,
        SchatError,
    >) {
        state.should_continue = false;
        Ok(CommandEffect::Reply(None))
    }

    fn help(&self) -> (r: &'static str) {
        "/quit - Exit the chat session"
    }
}

/// The text that lists the commands.
pub open spec fn help_listing() -> Seq<char> {
    "Available Commands\n/quit - Exit the chat session\n/help - Show available commands\n/clear - Clear conversation history\n/model <name> - Show or change the current model\n/save <filename> - Save conversation history to file\n/load <filename> - Load conversation history from file\n/list - List available conversation history files\n/delete <filename> - Delete a conversation history file\n/display <mode> - Control tool interaction visibility (verbose/minimal/hidden/help)"@
}

impl CommandHandler for HelpCommand {
    /// The session stays as it is; the commands are listed.
    open spec fn outcome(&self, before: ChatView, args: Seq<Seq<char>>) -> (ChatView, EffectView) {
        (before, EffectView::Reply(Some(help_listing())))
    }

    open spec fn help_text(&self) -> Seq<char> {
        "/help - Show available commands"@
    }

    fn execute(&self, state: &mut ChatState, args: &Vec<String>) -> (r: Result<
        CommandEffect,
        SchatError,
    >) {
        Ok(
            CommandEffect::Reply(
                Some(
                    String::from_str(
                        "Available Commands\n/quit - Exit the chat session\n/help - Show available commands\n/clear - Clear conversation history\n/model <name> - Show or change the current model\n/save <filename> - Save conversation history to file\n/load <filename> - Load conversation history from file\n/list - List available conversation history files\n/delete <filename> - Delete a conversation history file\n/display <mode> - Control tool interaction visibility (verbose/minimal/hidden/help)",
                    ),
                ),
            ),
        )
    }

    fn help(&self) -> (r: &'static str) {
        "/help - Show available commands"
    }
}

impl CommandHandler for ClearCommand {
    /// The conversation starts over with its system message.
    open spec fn outcome(&self, before: ChatView, args: Seq<Seq<char>>) -> (ChatView, EffectView) {
        (
            ChatView {
                messages: seq![
                    MessageView { role: Role::System, content: system_instruction() },
                ],
                ..before
            },
            EffectView::Reply(Some("Chat history cleared."@)),
        )
    }

    open spec fn help_text(&self) -> Seq<char> {
        "/clear - Clear conversation history"@
    }

    fn execute(&self, state: &mut ChatState, args: &Vec<String>) -> (r: Result<
        CommandEffect,
        SchatError,
    >) {
        state.clear();
        Ok(CommandEffect::Reply(Some(String::from_str("Chat history cleared."))))
    }

    fn help(&self) -> (r: &'static str) {
        "/clear - Clear conversation history"
    }
}

impl CommandHandler for ModelCommand {
    /// Without a word the model in use is shown; with one, that word names
    /// the model from now on.
    open spec fn outcome(&self, before: ChatView, args: Seq<Seq<char>>) -> (ChatView, EffectView) {
        if args.len() == 0 {
            (before, EffectView::Reply(Some("Current model: "@ + before.model)))
        } else {
            (
                ChatView { model: args[0], ..before },
                EffectView::Reply(Some("Model changed to: "@ + args[0])),
            )
        }
    }

    open spec fn help_text(&self) -> Seq<char> {
        "/model <name> - Show or change the current model"@
    }

    fn execute(&self, state: &mut ChatState, args: &Vec<String>) -> (r: Result<
        CommandEffect,
        SchatError,
    >) {
        if args.len() == 0 {
            let mut text = String::from_str("Current model: ");
            text.append(state.model.as_str());
            Ok(CommandEffect::Reply(Some(text)))
        } else {
            state.model = args[0].clone();
            let mut text = String::from_str("Model changed to: ");
            text.append(args[0].as_str());
            Ok(CommandEffect::Reply(Some(text)))
        }
    }

    fn help(&self) -> (r: &'static str) {
        "/model <name> - Show or change the current model"
    }
}

impl CommandHandler for SaveHistoryCommand {
    /// The conversation is to be saved, under the first word where there is
    /// one.
    open spec fn outcome(&self, before: ChatView, args: Seq<Seq<char>>) -> (ChatView, EffectView) {
        if args.len() == 0 {
            (before, EffectView::SaveHistory(None))
        } else {
            (before, EffectView::SaveHistory(Some(args[0])))
        }
    }

    open spec fn help_text(&self) -> Seq<char> {
        "/save <filename> - Save conversation history to file"@
    }

    fn execute(&self, state: &mut ChatState, args: &Vec<String>) -> (r: Result<
        CommandEffect,
        SchatError,
    >) {
        if args.len() == 0 {
            Ok(CommandEffect::SaveHistory(None))
        } else {
            Ok(CommandEffect::SaveHistory(Some(args[0].clone())))
        }
    }

    fn help(&self) -> (r: &'static str) {
        "/save <filename> - Save conversation history to file"
    }
}

impl CommandHandler for LoadHistoryCommand {
    /// The conversation is to be read from the file that the first word
    /// names; without one, a name is asked for.
    open spec fn outcome(&self, before: ChatView, args: Seq<Seq<char>>) -> (ChatView, EffectView) {
        if args.len() == 0 {
            (before, EffectView::Reply(Some("Please specify a filename"@)))
        } else {
            (before, EffectView::LoadHistory(args[0]))
        }
    }

    open spec fn help_text(&self) -> Seq<char> {
        "/load <filename> - Load conversation history from file"@
    }

    fn execute(&self, state: &mut ChatState, args: &Vec<String>) -> (r: Result<
        CommandEffect,
        SchatError,
    >) {
        if args.len() == 0 {
            Ok(CommandEffect::Reply(Some(String::from_str("Please specify a filename"))))
        } else {
            Ok(CommandEffect::LoadHistory(args[0].clone()))
        }
    }

    fn help(&self) -> (r: &'static str) {
        "/load <filename> - Load conversation history from file"
    }
}

impl CommandHandler for ListHistoryCommand {
    /// The saved conversations are to be listed.
    open spec fn outcome(&self, before: ChatView, args: Seq<Seq<char>>) -> (ChatView, EffectView) {
        (before, EffectView::ListHistory)
    }

    open spec fn help_text(&self) -> Seq<char> {
        "/list - List available conversation history files"@
    }

    fn execute(&self, state: &mut ChatState, args: &Vec<String>) -> (r: Result<
        CommandEffect,
        SchatError,
    >) {
        Ok(CommandEffect::ListHistory)
    }

    fn help(&self) -> (r: &'static str) {
        "/list - List available conversation history files"
    }
}

impl CommandHandler for DeleteHistoryCommand {
    /// The file that the first word names is to be deleted; without one, a
    /// name is asked for.
    open spec fn outcome(&self, before: ChatView, args: Seq<Seq<char>>) -> (ChatView, EffectView) {
        if args.len() == 0 {
            (before, EffectView::Reply(Some("Please specify a filename to delete"@)))
        } else {
            (before, EffectView::DeleteHistory(args[0]))
        }
    }

    open spec fn help_text(&self) -> Seq<char> {
        "/delete <filename> - Delete a conversation history file"@
    }

    fn execute(&self, state: &mut ChatState, args: &Vec<String>) -> (r: Result<
        CommandEffect,
        SchatError,
    >) {
        if args.len() == 0 {
            Ok(CommandEffect::Reply(Some(String::from_str("Please specify a filename to delete"))))
        } else {
            Ok(CommandEffect::DeleteHistory(args[0].clone()))
        }
    }

    fn help(&self) -> (r: &'static str) {
        "/delete <filename> - Delete a conversation history file"
    }
}

/// What is said when a display mode has been set.
pub open spec fn mode_reply(mode: DisplayMode) -> Seq<char> {
    match mode {
        DisplayMode::Verbose => "Display mode set to verbose - showing all tool interactions"@,
        DisplayMode::Minimal => "Display mode set to minimal - showing basic tool activity"@,
        DisplayMode::Hidden => "Display mode set to hidden - hiding all tool interactions"@,
    }
}

impl CommandHandler for DisplayCommand {
    /// The first word names the display mode from now on, or asks for help;
    /// without a word, and with an unknown one, the use is explained.
    open spec fn outcome(&self, before: ChatView, args: Seq<Seq<char>>) -> (ChatView, EffectView) {
        if args.len() == 0 {
            (
                before,
                EffectView::Reply(
                    Some(
                        "Usage: /display <mode> where mode is: verbose, minimal, hidden, or help"@,
                    ),
                ),
            )
        } else {
            match mode_of(args[0]) {
                Some(mode) => (
                    ChatView { display_mode: mode, ..before },
                    EffectView::Reply(Some(mode_reply(mode))),
                ),
                None => if args[0] == "help"@ {
                    (before, EffectView::ShowDisplayHelp)
                } else {
                    (
                        before,
                        EffectView::Reply(
                            Some("Unknown display mode. Use: verbose, minimal, hidden, or help"@),
                        ),
                    )
                },
            }
        }
    }

    open spec fn help_text(&self) -> Seq<char> {
        "/display <mode> - Control tool interaction visibility (verbose/minimal/hidden/help)"@
    }

    fn execute(&self, state: &mut ChatState, args: &Vec<String>) -> (r: Result<
        CommandEffect,
        SchatError,
    >) {
        if args.len() == 0 {
            return Ok(
                CommandEffect::Reply(
                    Some(
                        String::from_str(
                            "Usage: /display <mode> where mode is: verbose, minimal, hidden, or help",
                        ),
                    ),
                ),
            );
        }
        match DisplayMode::from_word(args[0].as_str()) {
            Some(mode) => {
                state.display_mode = mode;
                let text = match mode {
                    DisplayMode::Verbose => "Display mode set to verbose - showing all tool interactions",
                    DisplayMode::Minimal => "Display mode set to minimal - showing basic tool activity",
                    DisplayMode::Hidden => "Display mode set to hidden - hiding all tool interactions",
                };
                Ok(CommandEffect::Reply(Some(String::from_str(text))))
            },
            None => {
                if crate::strings::text_eq(args[0].as_str(), "help") {
                    Ok(CommandEffect::ShowDisplayHelp)
                } else {
                    Ok(
                        CommandEffect::Reply(
                            Some(
                                String::from_str(
                                    "Unknown display mode. Use: verbose, minimal, hidden, or help",
                                ),
                            ),
                        ),
                    )
                }
            },
        }
    }

    fn help(&self) -> (r: &'static str) {
        "/display <mode> - Control tool interaction visibility (verbose/minimal/hidden/help)"
    }
}

/// `label` followed by `path`.
fn labelled(label: &str, path: &str) -> (r: String)
    ensures
        r@ == label@ + path@,
{
    let mut r = String::from_str(label);
    r.append(path);
    r
}

/// What is said when the conversation has been saved to `path`.
pub fn saved_reply(path: &str) -> (r: String)
    ensures
        r@ == "History saved to: "@ + path@,
{
    labelled("History saved to: ", path)
}

/// What is said when the conversation has been read from `path`.
pub fn loaded_reply(path: &str) -> (r: String)
    ensures
        r@ == "History loaded from: "@ + path@,
{
    labelled("History loaded from: ", path)
}

/// What is said when `path` is to be deleted and does not exist.
pub fn missing_reply(path: &str) -> (r: String)
    ensures
        r@ == "File not found: "@ + path@,
{
    labelled("File not found: ", path)
}

/// What is said when `path` has been deleted.
pub fn deleted_reply(path: &str) -> (r: String)
    ensures
        r@ == "Deleted history file: "@ + path@,
{
    labelled("Deleted history file: ", path)
}

/// The names with a line feed between them.
pub open spec fn lines_joined(names: Seq<Seq<char>>) -> Seq<char>
    decreases names.len(),
{
    if names.len() == 0 {
        Seq::empty()
    } else if names.len() == 1 {
        names[0]
    } else {
        lines_joined(names.drop_last()) + "\n"@ + names.last()
    }
}

/// The listing of the saved conversations.
pub open spec fn listing_of(files: Seq<Seq<char>>) -> Seq<char> {
    if files.len() == 0 {
        "No history files found."@
    } else {
        lines_joined(files)
    }
}

/// The listing of the saved conversations `files`: one name on each line.
pub fn history_listing(files: &Vec<String>) -> (r: String)
    ensures
        r@ == listing_of(texts_of(files@)),
{
    let n: usize = files.len();
    if n == 0 {
        return String::from_str("No history files found.");
    }
    let ghost all = texts_of(files@);
    let mut r = files[0].clone();
    assert(all.take(1) =~= seq![files@[0]@]);
    let mut i: usize = 1;
    while i < n
        invariant
            1 <= i <= n,
            n == files.len(),
            all == texts_of(files@),
            r@ == lines_joined(all.take(i as int)),
        decreases n - i,
    {
        assert(all.take(i + 1).drop_last() =~= all.take(i as int));
        assert(all.take(i + 1).last() == files@[i as int]@);
        r.append("\n");
        r.append(files[i].as_str());
        i += 1;
    }
    assert(all.take(n as int) =~= all);
    r
}

/// The name under which a role is shown.
pub open spec fn role_title(role: Role) -> Seq<char> {
    match role {
        Role::System => "System"@,
        Role::User => "User"@,
        Role::Assistant => "Assistant"@,
    }
}

/// The title and the content under which a loaded message is shown.
pub fn loaded_message(message: &Message) -> (r: (&'static str, String))
    ensures
        r.0@ == role_title(message.role),
        r.1@ == message.content@,
{
    let title = match message.role {
        Role::System => "System",
        Role::User => "User",
        Role::Assistant => "Assistant",
    };
    (title, message.content.clone())
}

} // verus!
