//! The entry to the slash commands.

use crate::commands::handler::{
    words, ClearCommand, CommandEffect, CommandHandler, DeleteHistoryCommand, DisplayCommand,
    HelpCommand, ListHistoryCommand, LoadHistoryCommand, ModelCommand, QuitCommand,
    SaveHistoryCommand,
};
use crate::commands::registry::{
    command_index, commands_of, names_of, unknown_command, Command, CommandRegistry,
};
use crate::commands::ChatState;
use crate::error::SchatError;
use vstd::prelude::*;

verus! {

/// Runs slash commands by name.
#[derive(Debug)]
pub struct CommandDispatcher {
    pub registry: CommandRegistry,
}

impl CommandDispatcher {
    pub fn new(registry: CommandRegistry) -> (r: CommandDispatcher)
        ensures
            r.registry == registry,
    {
        CommandDispatcher { registry }
    }

    /// Runs the command that is called by `command`. A name that no
    /// command is registered under is an error of the input, and leaves the
    /// session as it is.
    pub fn execute(&self, command: &str, args: &Vec<String>, state: &mut ChatState) -> (r: Result<
        CommandEffect,
        SchatError,
    >)
        ensures
            match self.registry.command(command@) {
                Some(c) => r matches Ok(effect) && (final(state)@, effect@) == c.outcome(
                    old(state)@,
                    words(args@),
                ),
                None => r matches Err(SchatError::Input(d)) && d@ == unknown_command(command@)
                    && final(state)@ == old(state)@,
            },
    {
        self.registry.execute(command, args, state)
    }

    /// The names of the commands.
    pub fn get_command_names(&self) -> (r: Vec<String>)
        ensures
            words(r@) == names_of(self.registry.handlers@),
    {
        self.registry.get_command_names()
    }
}

/// The names of the standard commands.
pub open spec fn standard_names() -> Seq<Seq<char>> {
    seq![
        "quit"@,
        "help"@,
        "clear"@,
        "model"@,
        "save"@,
        "load"@,
        "list"@,
        "delete"@,
        "display"@,
    ]
}

/// The standard commands, in the order of their names.
pub open spec fn standard_commands() -> Seq<Command> {
    seq![
        Command::Quit(QuitCommand),
        Command::Help(HelpCommand),
        Command::Clear(ClearCommand),
        Command::Model(ModelCommand),
        Command::Save(SaveHistoryCommand),
        Command::Load(LoadHistoryCommand),
        Command::List(ListHistoryCommand),
        Command::Delete(DeleteHistoryCommand),
        Command::Display(DisplayCommand),
    ]
}

/// The standard names differ from each other.
proof fn lemma_standard_names_differ()
    ensures
        forall|i: int, j: int|
            0 <= i < j < standard_names().len() ==> standard_names()[i] != standard_names()[j],
{
    reveal_strlit("quit");
    reveal_strlit("help");
    reveal_strlit("clear");
    reveal_strlit("model");
    reveal_strlit("save");
    reveal_strlit("load");
    reveal_strlit("list");
    reveal_strlit("delete");
    reveal_strlit("display");
    let names = standard_names();
    assert(names[0][0] == 'q');
    assert(names[1][0] == 'h');
    assert(names[2][0] == 'c');
    assert(names[3][0] == 'm');
    assert(names[4][0] == 's');
    assert(names[5][1] == 'o');
    assert(names[6][1] == 'i');
    assert(names[5][0] == 'l');
    assert(names[6][0] == 'l');
    assert(names[7][1] == 'e');
    assert(names[8][1] == 'i');
    assert(names[7][0] == 'd');
    assert(names[8][0] == 'd');
}

/// Every standard name calls its own command: a registry that holds the
/// standard commands under the standard names finds, for each name, the
/// command that stands at the place of the name.
pub proof fn law_standard_commands_found(registry: CommandRegistry, i: int)
    requires
        names_of(registry.handlers@) == standard_names(),
        commands_of(registry.handlers@) == standard_commands(),
        0 <= i < standard_names().len(),
    ensures
        registry.command(standard_names()[i]) == Some(standard_commands()[i]),
{
    lemma_standard_names_differ();
    let handlers = registry.handlers@;
    let name = standard_names()[i];
    assert(handlers.len() == standard_names().len());
    assert forall|j: int| 0 <= j < handlers.len() implies (#[trigger] handlers[j]).0@
        == standard_names()[j] by {
        assert(names_of(handlers)[j] == handlers[j].0@);
    }
    lemma_command_found(handlers, name, 0, i);
    assert(commands_of(handlers)[i] == handlers[i].1);
}

/// A command of that name at `at`, with none before it, is what the search
/// finds.
proof fn lemma_command_found(handlers: Seq<(String, Command)>, name: Seq<char>, from: int, at: int)
    requires
        0 <= from <= at < handlers.len(),
        handlers[at].0@ == name,
        forall|j: int| from <= j < at ==> (#[trigger] handlers[j]).0@ != name,
    ensures
        command_index(handlers, name, from) == Some(at),
    decreases at - from,
{
    if from < at {
        lemma_command_found(handlers, name, from + 1, at);
    }
}

/// A dispatcher with the standard commands.
pub fn create_command_registry() -> (r: CommandDispatcher)
    ensures
        names_of(r.registry.handlers@) == standard_names(),
        commands_of(r.registry.handlers@) == standard_commands(),
{
    let mut handlers: Vec<(String, Command)> = Vec::new();
    handlers.push((String::from_str("quit"), Command::Quit(QuitCommand)));
    handlers.push((String::from_str("help"), Command::Help(HelpCommand)));
    handlers.push((String::from_str("clear"), Command::Clear(ClearCommand)));
    handlers.push((String::from_str("model"), Command::Model(ModelCommand)));
    handlers.push((String::from_str("save"), Command::Save(SaveHistoryCommand)));
    handlers.push((String::from_str("load"), Command::Load(LoadHistoryCommand)));
    handlers.push((String::from_str("list"), Command::List(ListHistoryCommand)));
    handlers.push((String::from_str("delete"), Command::Delete(DeleteHistoryCommand)));
    handlers.push((String::from_str("display"), Command::Display(DisplayCommand)));
    assert(names_of(handlers@) =~= standard_names());
    assert(commands_of(handlers@) =~= standard_commands());
    CommandDispatcher::new(CommandRegistry { handlers })
}

} // verus!
