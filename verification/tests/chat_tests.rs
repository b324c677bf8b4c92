use serde_json::Value;
use shellchat::chat::{
    classify_input, on_response, on_tool_outcome, run_turn, state_after, LoopState, TurnStep,
    UserInput,
};
use shellchat::commands::ChatState;
use shellchat::display::DisplayMode;
use shellchat::error::SchatError;
use shellchat::json::JsonDoc;
use shellchat::mcp::{Tool, ToolSet};
use shellchat::providers::{Message, Role};

fn registry() -> ToolSet {
    let mut tools = ToolSet::new();
    tools.add_tool(Tool::new("weather", "Tells the weather", JsonDoc::empty_object()));
    tools
}

fn doc(text: &str) -> JsonDoc {
    JsonDoc::parse(text).expect("a document")
}

#[test]
fn appending_keeps_what_was_there_in_its_order() {
    let mut state = ChatState::new("m");
    state.push(Message::new(Role::User, "one"));
    state.push(Message::new(Role::Assistant, "two"));
    let before: Vec<(Role, String)> =
        state.messages.iter().map(|m| (m.role, m.content.clone())).collect();
    state.push(Message::new(Role::User, "three"));
    let after: Vec<(Role, String)> =
        state.messages.iter().map(|m| (m.role, m.content.clone())).collect();
    assert_eq!(after.len(), before.len() + 1);
    assert_eq!(&after[..before.len()], &before[..]);
    assert_eq!(after[3], (Role::User, "three".to_string()));
    assert_eq!(state.model, "m");
    assert!(state.should_continue);
}

#[test]
fn a_response_without_a_tool_call_ends_the_turn_after_one_call() {
    let mut state = ChatState::new("m");
    state.push(Message::new(Role::User, "hi"));
    let responses = vec!["Hello!".to_string(), "never asked for".to_string()];
    let report = run_turn(&mut state, &registry(), &responses, &vec![]);
    assert_eq!(report.provider_calls, 1);
    assert!(report.finished);
    assert_eq!(report.tool_calls.len(), 0);
    assert_eq!(state.messages.len(), 3);
    assert_eq!(state.messages[2].role, Role::Assistant);
    assert_eq!(state.messages[2].content, "Hello!");
}

#[test]
fn a_registered_tool_is_called_once_and_its_result_goes_back_to_the_model() {
    let mut state = ChatState::new("m");
    state.push(Message::new(Role::User, "weather in Paris?"));
    let responses = vec![
        "{\"tool\":\"weather\",\"arguments\":{\"city\":\"Paris\"}}".to_string(),
        "It is sunny in Paris.".to_string(),
    ];
    let outcomes = vec![Ok(doc("{\"temp\": 21}"))];
    let report = run_turn(&mut state, &registry(), &responses, &outcomes);
    assert_eq!(report.provider_calls, 2);
    assert!(report.finished);
    assert_eq!(report.tool_calls.len(), 1);
    assert_eq!(report.tool_calls[0].tool.name, "weather");
    assert_eq!(report.tool_calls[0].tool.description, "Tells the weather");
    assert_eq!(report.tool_calls[0].arguments.value, doc("{\"city\":\"Paris\"}").value);
    assert_eq!(state.messages.len(), 5);
    assert_eq!(state.messages[2].role, Role::Assistant);
    assert_eq!(
        state.messages[2].content,
        "{\"tool\":\"weather\",\"arguments\":{\"city\":\"Paris\"}}"
    );
    assert_eq!(state.messages[3].role, Role::User);
    assert_eq!(state.messages[3].content, "Tool call result: {\n  \"temp\": 21\n}");
    assert_eq!(state.messages[4].role, Role::Assistant);
    assert_eq!(state.messages[4].content, "It is sunny in Paris.");
}

#[test]
fn the_call_is_handed_out_before_the_second_response_is_asked_for() {
    let mut state = ChatState::new("m");
    let step = on_response(
        &mut state,
        "{\"tool\":\"weather\",\"arguments\":{\"city\":\"Paris\"}}",
        &registry(),
    );
    assert_eq!(state.messages.len(), 2);
    assert_eq!(state_after(&step), LoopState::AwaitingResponse);
    match step {
        TurnStep::CallTool(call) => {
            assert_eq!(call.tool.name, "weather");
            assert_eq!(call.arguments.value, doc("{\"city\":\"Paris\"}").value);
        }
        _ => panic!("the tool should be called"),
    }
    on_tool_outcome(&mut state, &Ok(doc("\"sunny\"")));
    assert_eq!(state.messages.len(), 3);
    assert_eq!(state.messages[2].role, Role::User);
    assert_eq!(state.messages[2].content, "Tool call result: \"sunny\"");
}

#[test]
fn a_tool_that_is_not_registered_is_reported_to_the_model() {
    let mut state = ChatState::new("m");
    let step = on_response(&mut state, "{\"tool\":\"unknown\",\"arguments\":{}}", &registry());
    assert!(matches!(step, TurnStep::AskAgain));
    assert_eq!(state_after(&step), LoopState::AwaitingResponse);
    assert_eq!(state.messages.len(), 3);
    assert_eq!(state.messages[1].role, Role::Assistant);
    assert_eq!(state.messages[2].role, Role::User);
    assert_eq!(state.messages[2].content, "Tool call failed: Tool not found: unknown");
}

#[test]
fn a_failed_tool_call_is_reported_to_the_model() {
    let mut state = ChatState::new("m");
    let failure: Result<JsonDoc, SchatError> =
        Err(SchatError::ToolExecution("MCP tool call failed: timeout".to_string()));
    on_tool_outcome(&mut state, &failure);
    assert_eq!(state.messages.len(), 2);
    assert_eq!(state.messages[1].role, Role::User);
    assert_eq!(
        state.messages[1].content,
        "Tool call failed: Tool execution error: MCP tool call failed: timeout"
    );
}

#[test]
fn a_plain_response_is_done() {
    let mut state = ChatState::new("m");
    let step = on_response(&mut state, "Just words.", &registry());
    assert!(matches!(step, TurnStep::Done));
    assert_eq!(state_after(&step), LoopState::Done);
    assert_eq!(state.messages.len(), 2);
}

#[test]
fn a_turn_goes_on_through_failures_and_several_calls() {
    let mut state = ChatState::new("m");
    let responses = vec![
        "{\"tool\":\"nope\"}".to_string(),
        "{\"tool\":\"weather\",\"arguments\":{\"city\":\"Rome\"}}".to_string(),
        "{\"tool\":\"weather\",\"arguments\":{\"city\":\"Oslo\"}}".to_string(),
        "Done.".to_string(),
    ];
    let outcomes = vec![
        Err(SchatError::ToolExecution("down".to_string())),
        Ok(doc("{\"temp\": -3}")),
    ];
    let report = run_turn(&mut state, &registry(), &responses, &outcomes);
    assert_eq!(report.provider_calls, 4);
    assert!(report.finished);
    assert_eq!(report.tool_calls.len(), 2);
    assert_eq!(report.tool_calls[0].arguments.value, doc("{\"city\":\"Rome\"}").value);
    assert_eq!(report.tool_calls[1].arguments.value, doc("{\"city\":\"Oslo\"}").value);
    let contents: Vec<&str> = state.messages.iter().map(|m| m.content.as_str()).collect();
    assert_eq!(
        contents,
        vec![
            "You are a helpful assistant.",
            "{\"tool\":\"nope\"}",
            "Tool call failed: Tool not found: nope",
            "{\"tool\":\"weather\",\"arguments\":{\"city\":\"Rome\"}}",
            "Tool call failed: Tool execution error: down",
            "{\"tool\":\"weather\",\"arguments\":{\"city\":\"Oslo\"}}",
            "Tool call result: {\n  \"temp\": -3\n}",
            "Done.",
        ]
    );
}

#[test]
fn a_turn_stops_where_the_script_runs_out() {
    let mut state = ChatState::new("m");
    let responses = vec!["{\"tool\":\"weather\"}".to_string(), "later".to_string()];
    let report = run_turn(&mut state, &registry(), &responses, &vec![]);
    assert_eq!(report.provider_calls, 1);
    assert!(!report.finished);
    assert_eq!(report.tool_calls.len(), 1);
    assert_eq!(report.tool_calls[0].arguments.value, Value::Object(serde_json::Map::new()));
    assert_eq!(state.messages.len(), 2);
    let mut state = ChatState::new("m");
    let report = run_turn(&mut state, &registry(), &vec![], &vec![]);
    assert_eq!(report.provider_calls, 0);
    assert!(!report.finished);
    assert_eq!(state.messages.len(), 1);
}

#[test]
fn a_turn_leaves_model_flag_and_mode_alone() {
    let mut state = ChatState::new("model-x");
    state.display_mode = DisplayMode::Hidden;
    let responses = vec!["{\"tool\":\"nope\"}".to_string(), "ok".to_string()];
    run_turn(&mut state, &registry(), &responses, &vec![]);
    assert_eq!(state.model, "model-x");
    assert!(state.should_continue);
    assert_eq!(state.display_mode, DisplayMode::Hidden);
}

#[test]
fn lines_of_input_are_told_apart() {
    assert!(matches!(classify_input(""), UserInput::Nothing));
    assert!(matches!(classify_input("  \t "), UserInput::Nothing));
    assert!(matches!(classify_input("/"), UserInput::Nothing));
    assert!(matches!(classify_input(" /   "), UserInput::Nothing));
    match classify_input("  hello there  ") {
        UserInput::Message(text) => assert_eq!(text, "hello there"),
        other => panic!("unexpected input {:?}", other),
    }
    match classify_input("/model  gpt-4.1   extra ") {
        UserInput::Command { name, args } => {
            assert_eq!(name, "model");
            assert_eq!(args, vec!["gpt-4.1".to_string(), "extra".to_string()]);
        }
        other => panic!("unexpected input {:?}", other),
    }
    match classify_input("/ quit") {
        UserInput::Command { name, args } => {
            assert_eq!(name, "quit");
            assert_eq!(args.len(), 0);
        }
        other => panic!("unexpected input {:?}", other),
    }
    match classify_input("a /b") {
        UserInput::Message(text) => assert_eq!(text, "a /b"),
        other => panic!("unexpected input {:?}", other),
    }
}
