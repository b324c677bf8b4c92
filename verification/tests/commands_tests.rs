use shellchat::commands::dispatcher::{create_command_registry, CommandDispatcher};
use shellchat::commands::handler::{
    deleted_reply, history_listing, loaded_message, loaded_reply, missing_reply, saved_reply,
    ClearCommand, CommandEffect, CommandHandler, DeleteHistoryCommand, DisplayCommand, HelpCommand,
    ListHistoryCommand, LoadHistoryCommand, ModelCommand, QuitCommand, SaveHistoryCommand,
};
use shellchat::commands::registry::{Command, CommandRegistry};
use shellchat::commands::ChatState;
use shellchat::display::DisplayMode;
use shellchat::error::SchatError;
use shellchat::providers::{Message, Role};

fn words(items: Vec<&str>) -> Vec<String> {
    items.into_iter().map(|w| w.to_string()).collect()
}

fn reply(effect: Result<CommandEffect, SchatError>) -> Option<String> {
    match effect {
        Ok(CommandEffect::Reply(text)) => text,
        other => panic!("unexpected effect {:?}", other),
    }
}

#[test]
fn quit_ends_the_session() {
    let mut state = ChatState::new("m");
    assert_eq!(reply(QuitCommand.execute(&mut state, &vec![])), None);
    assert!(!state.should_continue);
    assert_eq!(state.messages.len(), 1);
    assert_eq!(QuitCommand.help(), "/quit - Exit the chat session");
}

#[test]
fn clear_starts_the_conversation_over() {
    let mut state = ChatState::new("m");
    state.push(Message::new(Role::User, "hello"));
    state.push(Message::new(Role::Assistant, "hi"));
    assert_eq!(
        reply(ClearCommand.execute(&mut state, &vec![])),
        Some("Chat history cleared.".to_string())
    );
    assert_eq!(state.messages.len(), 1);
    assert_eq!(state.messages[0].role, Role::System);
    assert_eq!(state.messages[0].content, "You are a helpful assistant.");
    assert!(state.should_continue);
    assert_eq!(ClearCommand.help(), "/clear - Clear conversation history");
}

#[test]
fn model_shows_or_changes_the_model() {
    let mut state = ChatState::new("gpt-4.1-mini");
    assert_eq!(
        reply(ModelCommand.execute(&mut state, &vec![])),
        Some("Current model: gpt-4.1-mini".to_string())
    );
    assert_eq!(
        reply(ModelCommand.execute(&mut state, &words(vec!["deepseek-chat", "ignored"]))),
        Some("Model changed to: deepseek-chat".to_string())
    );
    assert_eq!(state.model, "deepseek-chat");
    assert_eq!(ModelCommand.help(), "/model <name> - Show or change the current model");
}

#[test]
fn display_sets_the_mode() {
    let mut state = ChatState::new("m");
    assert_eq!(state.display_mode, DisplayMode::Minimal);
    assert_eq!(
        reply(DisplayCommand.execute(&mut state, &words(vec!["verbose"]))),
        Some("Display mode set to verbose - showing all tool interactions".to_string())
    );
    assert_eq!(state.display_mode, DisplayMode::Verbose);
    assert_eq!(
        reply(DisplayCommand.execute(&mut state, &words(vec!["hidden"]))),
        Some("Display mode set to hidden - hiding all tool interactions".to_string())
    );
    assert_eq!(state.display_mode, DisplayMode::Hidden);
    assert_eq!(
        reply(DisplayCommand.execute(&mut state, &words(vec!["minimal"]))),
        Some("Display mode set to minimal - showing basic tool activity".to_string())
    );
    assert_eq!(state.display_mode, DisplayMode::Minimal);
}

#[test]
fn display_explains_itself() {
    let mut state = ChatState::new("m");
    assert_eq!(
        reply(DisplayCommand.execute(&mut state, &vec![])),
        Some("Usage: /display <mode> where mode is: verbose, minimal, hidden, or help".to_string())
    );
    assert_eq!(
        reply(DisplayCommand.execute(&mut state, &words(vec!["loud"]))),
        Some("Unknown display mode. Use: verbose, minimal, hidden, or help".to_string())
    );
    assert_eq!(
        reply(DisplayCommand.execute(&mut state, &words(vec!["Verbose"]))),
        Some("Unknown display mode. Use: verbose, minimal, hidden, or help".to_string())
    );
    assert!(matches!(
        DisplayCommand.execute(&mut state, &words(vec!["help"])),
        Ok(CommandEffect::ShowDisplayHelp)
    ));
    assert_eq!(state.display_mode, DisplayMode::Minimal);
    assert_eq!(
        DisplayCommand.help(),
        "/display <mode> - Control tool interaction visibility (verbose/minimal/hidden/help)"
    );
}

#[test]
fn help_lists_the_commands() {
    let mut state = ChatState::new("m");
    let text = reply(HelpCommand.execute(&mut state, &vec![])).expect("a text");
    let lines: Vec<&str> = text.lines().collect();
    assert_eq!(
        lines,
        vec![
            "Available Commands",
            QuitCommand.help(),
            HelpCommand.help(),
            ClearCommand.help(),
            ModelCommand.help(),
            SaveHistoryCommand.help(),
            LoadHistoryCommand.help(),
            ListHistoryCommand.help(),
            DeleteHistoryCommand.help(),
            DisplayCommand.help(),
        ]
    );
    assert_eq!(HelpCommand.help(), "/help - Show available commands");
}

#[test]
fn the_history_commands_ask_for_their_files() {
    let mut state = ChatState::new("m");
    assert!(matches!(
        SaveHistoryCommand.execute(&mut state, &vec![]),
        Ok(CommandEffect::SaveHistory(None))
    ));
    match SaveHistoryCommand.execute(&mut state, &words(vec!["talk.json"])) {
        Ok(CommandEffect::SaveHistory(Some(name))) => assert_eq!(name, "talk.json"),
        other => panic!("unexpected effect {:?}", other),
    }
    assert_eq!(
        reply(LoadHistoryCommand.execute(&mut state, &vec![])),
        Some("Please specify a filename".to_string())
    );
    match LoadHistoryCommand.execute(&mut state, &words(vec!["talk.json"])) {
        Ok(CommandEffect::LoadHistory(name)) => assert_eq!(name, "talk.json"),
        other => panic!("unexpected effect {:?}", other),
    }
    assert!(matches!(
        ListHistoryCommand.execute(&mut state, &vec![]),
        Ok(CommandEffect::ListHistory)
    ));
    assert_eq!(
        reply(DeleteHistoryCommand.execute(&mut state, &vec![])),
        Some("Please specify a filename to delete".to_string())
    );
    match DeleteHistoryCommand.execute(&mut state, &words(vec!["talk.json"])) {
        Ok(CommandEffect::DeleteHistory(name)) => assert_eq!(name, "talk.json"),
        other => panic!("unexpected effect {:?}", other),
    }
    assert_eq!(SaveHistoryCommand.help(), "/save <filename> - Save conversation history to file");
    assert_eq!(LoadHistoryCommand.help(), "/load <filename> - Load conversation history from file");
    assert_eq!(ListHistoryCommand.help(), "/list - List available conversation history files");
    assert_eq!(DeleteHistoryCommand.help(), "/delete <filename> - Delete a conversation history file");
}

#[test]
fn the_dispatcher_knows_the_standard_commands() {
    let dispatcher = create_command_registry();
    assert_eq!(
        dispatcher.get_command_names(),
        words(vec!["quit", "help", "clear", "model", "save", "load", "list", "delete", "display"])
    );
    let mut state = ChatState::new("m");
    assert_eq!(reply(dispatcher.execute("quit", &vec![], &mut state)), None);
    assert!(!state.should_continue);
    assert_eq!(
        reply(dispatcher.execute("model", &words(vec!["x"]), &mut state)),
        Some("Model changed to: x".to_string())
    );
    assert!(matches!(
        dispatcher.execute("list", &vec![], &mut state),
        Ok(CommandEffect::ListHistory)
    ));
}

#[test]
fn an_unknown_command_is_an_error_of_the_input() {
    let dispatcher = create_command_registry();
    let mut state = ChatState::new("m");
    match dispatcher.execute("dance", &vec![], &mut state) {
        Err(SchatError::Input(words)) => assert_eq!(words, "Unknown command: dance"),
        other => panic!("unexpected result {:?}", other),
    }
    match dispatcher.execute("Quit", &vec![], &mut state) {
        Err(e) => assert_eq!(e.message(), "Input error: Unknown command: Quit"),
        other => panic!("unexpected result {:?}", other),
    }
    assert!(state.should_continue);
}

#[test]
fn a_registry_takes_commands_under_any_name() {
    let mut registry = CommandRegistry::new();
    assert_eq!(registry.get_command_names().len(), 0);
    registry.register("bye", Command::Quit(QuitCommand));
    registry.register("wipe", Command::Clear(ClearCommand));
    registry.register("bye", Command::Help(HelpCommand));
    assert_eq!(registry.get_command_names(), words(vec!["bye", "wipe"]));
    let dispatcher = CommandDispatcher::new(registry);
    let mut state = ChatState::new("m");
    let text = reply(dispatcher.execute("bye", &vec![], &mut state)).expect("a text");
    assert!(text.starts_with("Available Commands\n"));
    assert!(state.should_continue);
    assert!(dispatcher.execute("quit", &vec![], &mut state).is_err());
}

#[test]
fn the_replies_of_the_history_commands() {
    assert_eq!(saved_reply("/h/a.json"), "History saved to: /h/a.json");
    assert_eq!(loaded_reply("/h/a.json"), "History loaded from: /h/a.json");
    assert_eq!(missing_reply("/h/a.json"), "File not found: /h/a.json");
    assert_eq!(deleted_reply("/h/a.json"), "Deleted history file: /h/a.json");
    assert_eq!(history_listing(&vec![]), "No history files found.");
    assert_eq!(history_listing(&words(vec!["a.json"])), "a.json");
    assert_eq!(history_listing(&words(vec!["a.json", "b.json", "c"])), "a.json\nb.json\nc");
    let (title, content) = loaded_message(&Message::new(Role::Assistant, "hi"));
    assert_eq!(title, "Assistant");
    assert_eq!(content, "hi");
    assert_eq!(loaded_message(&Message::new(Role::System, "s")).0, "System");
    assert_eq!(loaded_message(&Message::new(Role::User, "u")).0, "User");
}

#[test]
fn a_saved_conversation_is_restored_if_it_starts_with_its_system_message() {
    let mut state = ChatState::new("m");
    let saved = vec![
        Message::new(Role::System, "s"),
        Message::new(Role::User, "u"),
        Message::new(Role::Assistant, "a"),
    ];
    assert!(ChatState::is_conversation(&saved));
    assert!(state.restore(saved).is_ok());
    assert_eq!(state.messages.len(), 3);
    assert_eq!(state.messages[2].content, "a");
    let broken = vec![Message::new(Role::User, "u")];
    assert!(!ChatState::is_conversation(&broken));
    match state.restore(broken) {
        Err(SchatError::Input(words)) => {
            assert_eq!(words, "A conversation starts with its one system message")
        }
        other => panic!("unexpected result {:?}", other),
    }
    assert_eq!(state.messages.len(), 3);
    let twice = vec![Message::new(Role::System, "s"), Message::new(Role::System, "t")];
    assert!(!ChatState::is_conversation(&twice));
    assert!(!ChatState::is_conversation(&vec![]));
}
