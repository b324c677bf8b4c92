//! The slash commands by name.

use crate::commands::handler::{
    words, ClearCommand, CommandEffect, CommandHandler, DeleteHistoryCommand, DisplayCommand,
    EffectView, HelpCommand, ListHistoryCommand, LoadHistoryCommand, ModelCommand, QuitCommand,
    SaveHistoryCommand,
};
use crate::commands::{one_system_message, ChatState, ChatView};
use crate::error::SchatError;
use crate::strings::text_eq;
use vstd::prelude::*;

verus! {

/// One of the slash commands.
#[derive(Debug)]
pub enum Command {
    Quit(QuitCommand),
    Help(HelpCommand),
    Clear(ClearCommand),
    Model(ModelCommand),
    Save(SaveHistoryCommand),
    Load(LoadHistoryCommand),
    List(ListHistoryCommand),
    Delete(DeleteHistoryCommand),
    Display(DisplayCommand),
}

impl CommandHandler for Command {
    open spec fn outcome(&self, before: ChatView, args: Seq<Seq<char>>) -> (ChatView, EffectView) {
        match self {
            Command::Quit(c) => c.outcome(before, args),
            Command::Help(c) => c.outcome(before, args),
            Command::Clear(c) => c.outcome(before, args),
            Command::Model(c) => c.outcome(before, args),
            Command::Save(c) => c.outcome(before, args),
            Command::Load(c) => c.outcome(before, args),
            Command::List(c) => c.outcome(before, args),
            Command::Delete(c) => c.outcome(before, args),
            Command::Display(c) => c.outcome(before, args),
        }
    }

    open spec fn help_text(&self) -> Seq<char> {
        match self {
            Command::Quit(c) => c.help_text(),
            Command::Help(c) => c.help_text(),
            Command::Clear(c) => c.help_text(),
            Command::Model(c) => c.help_text(),
            Command::Save(c) => c.help_text(),
            Command::Load(c) => c.help_text(),
            Command::List(c) => c.help_text(),
            Command::Delete(c) => c.help_text(),
            Command::Display(c) => c.help_text(),
        }
    }

    fn execute(&self, state: &mut ChatState, args: &Vec<String>) -> (r: Result<
        CommandEffect,
        SchatError,
    >) {
        match self {
            Command::Quit(c) => c.execute(state, args),
            Command::Help(c) => c.execute(state, args),
            Command::Clear(c) => c.execute(state, args),
            Command::Model(c) => c.execute(state, args),
            Command::Save(c) => c.execute(state, args),
            Command::Load(c) => c.execute(state, args),
            Command::List(c) => c.execute(state, args),
            Command::Delete(c) => c.execute(state, args),
            Command::Display(c) => c.execute(state, args),
        }
    }

    fn help(&self) -> (r: &'static str) {
        match self {
            Command::Quit(c) => c.help(),
            Command::Help(c) => c.help(),
            Command::Clear(c) => c.help(),
            Command::Model(c) => c.help(),
            Command::Save(c) => c.help(),
            Command::Load(c) => c.help(),
            Command::List(c) => c.help(),
            Command::Delete(c) => c.help(),
            Command::Display(c) => c.help(),
        }
    }
}

/// The first index at or after `from` of a command registered as `name`.
pub open spec fn command_index(handlers: Seq<(String, Command)>, name: Seq<char>, from: int) ->
    Option<int>
    decreases handlers.len() - from,
{
    if from < 0 || from >= handlers.len() {
        None
    } else if handlers[from].0@ == name {
        Some(from)
    } else {
        command_index(handlers, name, from + 1)
    }
}

/// `command_index` finds the first command of that name at or after `from`.
pub proof fn lemma_command_index(handlers: Seq<(String, Command)>, name: Seq<char>, from: int)
    requires
        0 <= from,
    ensures
        match command_index(handlers, name, from) {
            Some(i) => from <= i < handlers.len() && handlers[i].0@ == name && forall|j: int|
                from <= j < i ==> (#[trigger] handlers[j]).0@ != name,
            None => forall|j: int|
                from <= j < handlers.len() ==> (#[trigger] handlers[j]).0@ != name,
        },
    decreases handlers.len() - from,
{
    if from < handlers.len() && handlers[from].0@ != name {
        lemma_command_index(handlers, name, from + 1);
    }
}

/// The names of the registered commands, in the order of registration.
pub open spec fn names_of(handlers: Seq<(String, Command)>) -> Seq<Seq<char>> {
    handlers.map_values(|h: (String, Command)| h.0@)
}

/// The registered commands, in the order of registration.
pub open spec fn commands_of(handlers: Seq<(String, Command)>) -> Seq<Command> {
    handlers.map_values(|h: (String, Command)| h.1)
}

/// The text of the error for a name that no command is registered under.
pub open spec fn unknown_command(name: Seq<char>) -> Seq<char> {
    "Unknown command: "@ + name
}

/// The commands, each under the name by which it is called.
#[derive(Debug)]
pub struct CommandRegistry {
    pub handlers: Vec<(String, Command)>,
}

impl CommandRegistry {
    /// The command that is called by `name`.
    pub open spec fn command(&self, name: Seq<char>) -> Option<Command> {
        match command_index(self.handlers@, name, 0) {
            Some(i) => Some(self.handlers@[i].1),
            None => None,
        }
    }

    /// A registry without commands.
    pub fn new() -> (r: CommandRegistry)
        ensures
            r.handlers@.len() == 0,
    {
        CommandRegistry { handlers: Vec::new() }
    }

    fn index_of(&self, name: &str) -> (r: Option<usize>)
        ensures
            match r {
                Some(i) => i < self.handlers@.len() && command_index(self.handlers@, name@, 0)
                    == Some(i as int),
                None => command_index(self.handlers@, name@, 0) is None,
            },
    {
        let n: usize = self.handlers.len();
        let mut i: usize = 0;
        while i < n
            invariant
                i <= n,
                n == self.handlers.len(),
                command_index(self.handlers@, name@, 0) == command_index(
                    self.handlers@,
                    name@,
                    i as int,
                ),
            decreases n - i,
        {
            if text_eq(self.handlers[i].0.as_str(), name) {
                return Some(i);
            }
            i += 1;
        }
        None
    }

    /// Registers `command` under `name`. A command that was registered
    /// under that name gives way; the others stay as they are.
    pub fn register(&mut self, name: &str, command: Command)
        ensures
            match command_index(old(self).handlers@, name@, 0) {
                Some(i) => {
                    &&& names_of(final(self).handlers@) == names_of(old(self).handlers@)
                    &&& commands_of(final(self).handlers@) == commands_of(
                        old(self).handlers@,
                    ).update(i, command)
                },
                None => {
                    &&& names_of(final(self).handlers@) == names_of(old(self).handlers@).push(
                        name@,
                    )
                    &&& commands_of(final(self).handlers@) == commands_of(
                        old(self).handlers@,
                    ).push(command)
                },
            },
    {
        let ghost before = self.handlers@;
        match self.index_of(name) {
            Some(i) => {
                proof {
                    lemma_command_index(before, name@, 0);
                }
                self.handlers.set(i, (String::from_str(name), command));
                assert(names_of(self.handlers@) =~= names_of(before));
                assert(commands_of(self.handlers@) =~= commands_of(before).update(
                    i as int,
                    command,
                ));
            },
            None => {
                self.handlers.push((String::from_str(name), command));
                assert(names_of(self.handlers@) =~= names_of(before).push(name@));
                assert(commands_of(self.handlers@) =~= commands_of(before).push(command));
            },
        }
    }

    /// Runs the command that is called by `name`. A name that no command is
    /// registered under is an error of the input, and leaves the session as
    /// it is.
    pub fn execute(&self, name: &str, args: &Vec<String>, state: &mut ChatState) -> (r: Result<
        CommandEffect,
        SchatError,
    >)
        ensures
            match self.command(name@) {
                Some(command) => r matches Ok(effect) && (final(state)@, effect@)
                    == command.outcome(old(state)@, words(args@)),
                None => r matches Err(SchatError::Input(d)) && d@ == unknown_command(name@)
                    && final(state)@ == old(state)@,
            },
    {
        match self.index_of(name) {
            Some(i) => self.handlers[i].1.execute(state, args),
            None => {
                let mut text = String::from_str("Unknown command: ");
                text.append(name);
                Err(SchatError::Input(text))
            },
        }
    }

    /// The names of the commands, in the order of registration.
    pub fn get_command_names(&self) -> (r: Vec<String>)
        ensures
            crate::commands::handler::words(r@) == names_of(self.handlers@),
    {
        let mut r: Vec<String> = Vec::new();
        let n: usize = self.handlers.len();
        let mut i: usize = 0;
        while i < n
            invariant
                i <= n,
                n == self.handlers.len(),
                r.len() == i,
                forall|k: int| 0 <= k < i ==> r@[k]@ == self.handlers@[k].0@,
            decreases n - i,
        {
            r.push(self.handlers[i].0.clone());
            i += 1;
        }
        assert(words(r@) =~= names_of(self.handlers@));
        r
    }
}

/// No command breaks the shape of the conversation: where it started with
/// its one system message before the command, it does so after it.
pub proof fn law_commands_keep_system_message(
    command: Command,
    before: ChatView,
    args: Seq<Seq<char>>,
)
    requires
        one_system_message(before.messages),
    ensures
        one_system_message(command.outcome(before, args).0.messages),
{
}

/// Only the command to quit ends the session.
pub proof fn law_only_quit_ends_session(command: Command, before: ChatView, args: Seq<Seq<char>>)
    requires
        before.should_continue,
    ensures
        command.outcome(before, args).0.should_continue == !(command is Quit),
{
}

} // verus!
