use shellchat::display::UserChoice;
use shellchat::providers::{Message, Role};
use shellchat::shell::{
    advance, chat_prompt, compose_query, decide, describe_prompt, needs_confirmation, opening,
    replay, shell_prompt, ShellConfirmationState, ShellOutcome, ShellStep,
};
use shellchat::error::SchatError;

fn base() -> Vec<Message> {
    opening("Convert the query to a command.", "list files")
}

fn roles(messages: &Vec<Message>) -> Vec<Role> {
    messages.iter().map(|m| m.role).collect()
}

#[test]
fn two_describes_reach_the_state_after_the_second() {
    let responses = vec!["It lists files.".to_string(), "Still lists files.".to_string()];
    let choices = vec![UserChoice::Describe, UserChoice::Describe];
    let run = replay(&base(), "ls -la", &choices, &responses);
    assert_eq!(run.outcome, None);
    assert_eq!(run.calls, 2);
    match run.state {
        ShellConfirmationState::AfterSecondDescribe(history) => {
            assert_eq!(history.len(), 8);
            assert_eq!(
                roles(&history),
                vec![
                    Role::System,
                    Role::User,
                    Role::Assistant,
                    Role::User,
                    Role::Assistant,
                    Role::Assistant,
                    Role::User,
                    Role::Assistant
                ]
            );
            assert_eq!(history[2].content, "ls -la");
            assert_eq!(history[3].content, describe_prompt());
            assert_eq!(history[4].content, "It lists files.");
            assert_eq!(history[5].content, "ls -la");
            assert_eq!(history[7].content, "Still lists files.");
        }
        other => panic!("unexpected state {:?}", other),
    }
}

#[test]
fn a_third_describe_makes_no_call_and_neither_runs_nor_cancels() {
    let responses = vec!["one".to_string(), "two".to_string(), "three".to_string()];
    let choices = vec![UserChoice::Describe, UserChoice::Describe, UserChoice::Describe];
    let run = replay(&base(), "ls", &choices, &responses);
    assert_eq!(run.outcome, Some(ShellOutcome::Exhausted));
    assert_eq!(run.calls, 2);
    assert!(matches!(run.state, ShellConfirmationState::AfterSecondDescribe(_)));
}

#[test]
fn execute_ends_the_confirmation_from_every_state() {
    let responses = vec!["one".to_string(), "two".to_string()];
    for describes in 0..3usize {
        let mut choices = vec![UserChoice::Describe; describes];
        choices.push(UserChoice::Execute);
        choices.push(UserChoice::Describe);
        choices.push(UserChoice::Abort);
        let run = replay(&base(), "ls", &choices, &responses);
        assert_eq!(run.outcome, Some(ShellOutcome::Run));
        assert_eq!(run.calls, describes);
    }
}

#[test]
fn abort_ends_the_confirmation_from_every_state() {
    let responses = vec!["one".to_string(), "two".to_string()];
    for describes in 0..3usize {
        let mut choices = vec![UserChoice::Describe; describes];
        choices.push(UserChoice::Abort);
        choices.push(UserChoice::Execute);
        let run = replay(&base(), "ls", &choices, &responses);
        assert_eq!(run.outcome, Some(ShellOutcome::Cancelled));
        assert_eq!(run.calls, describes);
    }
}

#[test]
fn decide_asks_for_an_explanation_of_the_command() {
    let step = decide(&ShellConfirmationState::Initial, UserChoice::Describe, &base(), "ls -la");
    match step {
        ShellStep::Explain(request) => {
            assert_eq!(request.len(), 4);
            assert_eq!(request[0].content, "Convert the query to a command.");
            assert_eq!(request[1].content, "list files");
            assert_eq!(request[2].role, Role::Assistant);
            assert_eq!(request[2].content, "ls -la");
            assert_eq!(request[3].role, Role::User);
            assert_eq!(
                request[3].content,
                "Explain the shell command that was just provided in a concise and easy-to-understand way. Describe what the command does, what its main flags/options mean, and provide a simple example if applicable."
            );
        }
        other => panic!("unexpected step {:?}", other),
    }
}

#[test]
fn decide_goes_on_from_the_held_history() {
    let held = vec![Message::new(Role::System, "held")];
    let state = ShellConfirmationState::AfterFirstDescribe(held);
    match decide(&state, UserChoice::Describe, &base(), "ls") {
        ShellStep::Explain(request) => {
            assert_eq!(request.len(), 3);
            assert_eq!(request[0].content, "held");
        }
        other => panic!("unexpected step {:?}", other),
    }
    let state = ShellConfirmationState::AfterSecondDescribe(vec![]);
    assert!(matches!(
        decide(&state, UserChoice::Describe, &base(), "ls"),
        ShellStep::Finish(ShellOutcome::Exhausted)
    ));
    assert!(matches!(
        decide(&state, UserChoice::Execute, &base(), "ls"),
        ShellStep::Finish(ShellOutcome::Run)
    ));
    assert!(matches!(
        decide(&state, UserChoice::Abort, &base(), "ls"),
        ShellStep::Finish(ShellOutcome::Cancelled)
    ));
}

#[test]
fn advance_appends_the_answer_and_moves_on() {
    let request = vec![Message::new(Role::User, "why")];
    let state = advance(ShellConfirmationState::Initial, request, "because");
    match state {
        ShellConfirmationState::AfterFirstDescribe(history) => {
            assert_eq!(history.len(), 2);
            assert_eq!(history[1].role, Role::Assistant);
            assert_eq!(history[1].content, "because");
        }
        other => panic!("unexpected state {:?}", other),
    }
    let kept = ShellConfirmationState::AfterSecondDescribe(vec![Message::new(Role::User, "k")]);
    match advance(kept, vec![], "ignored") {
        ShellConfirmationState::AfterSecondDescribe(history) => {
            assert_eq!(history.len(), 1);
            assert_eq!(history[0].content, "k");
        }
        other => panic!("unexpected state {:?}", other),
    }
}

#[test]
fn a_run_stops_where_the_answers_run_out() {
    let choices = vec![UserChoice::Describe, UserChoice::Describe, UserChoice::Execute];
    let run = replay(&base(), "ls", &choices, &vec!["only one".to_string()]);
    assert_eq!(run.outcome, None);
    assert_eq!(run.calls, 1);
    assert!(matches!(run.state, ShellConfirmationState::AfterFirstDescribe(_)));
}

#[test]
fn the_flag_and_the_configuration_both_skip_the_confirmation() {
    assert!(needs_confirmation(false, false));
    assert!(!needs_confirmation(true, false));
    assert!(!needs_confirmation(false, true));
    assert!(!needs_confirmation(true, true));
}

#[test]
fn the_shell_prompt_names_shell_and_system() {
    assert_eq!(
        shell_prompt("/bin/zsh", "Linux 6.1 64-bit"),
        "Convert the natural language query to a single command that will work on the current system. Only output the bare command without any explanation or markdown formatting. Include any necessary flags to make the command compatible with the current shell and OS. The current shell is /bin/zsh and the OS is Linux 6.1 64-bit."
    );
    assert_eq!(
        chat_prompt(),
        "You are a helpful assistant. Answer the following question in a concise manner: "
    );
}

#[test]
fn the_query_goes_behind_what_was_piped_in() {
    assert_eq!(compose_query(Some("q"), Some("ctx"), "m").unwrap(), "<pipe>ctx</pipe>\n\nq");
    assert_eq!(compose_query(None, Some("ctx"), "m").unwrap(), "<pipe>ctx</pipe>");
    assert_eq!(compose_query(Some("q"), None, "m").unwrap(), "q");
    match compose_query(None, None, "Query argument missing for shell mode") {
        Err(SchatError::Input(words)) => assert_eq!(words, "Query argument missing for shell mode"),
        other => panic!("unexpected result {:?}", other),
    }
}
