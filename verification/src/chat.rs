//! The tool-calling loop of a chat turn, as decisions: what follows a
//! response of the provider, and what follows the outcome of a tool call.

use crate::commands::{one_system_message, ChatState};
use crate::error::SchatError;
use crate::extractor::{announces_tool, extract_tool_call, extraction};
use crate::json::{json_pretty, JsonDoc, JsonValue};
use crate::mcp::{PendingCall, ToolSet};
use crate::providers::{Message, MessageView, Role};
use crate::strings::{chars_of, slice_of, split_words, texts_of, trim, trimmed, words_of};
use vstd::prelude::*;

verus! {

/// Where a turn stands.
#[derive(Debug, Clone, Copy, PartialEq, Eq, Structural)]
pub enum LoopState {
    /// The provider is to be asked with the conversation as it is.
    AwaitingResponse,
    /// The turn is over.
    Done,
}

/// What follows a response of the provider.
pub enum TurnStep {
    /// The response holds no tool call: the turn is over.
    Done,
    /// The response calls a registered tool: the call is to be made, and its
    /// outcome reported.
    CallTool(PendingCall),
    /// The response calls a tool that is not registered: the failure has
    /// been put into the conversation, and the provider is to be asked again.
    AskAgain,
}

/// The message that reports the result of a tool call to the model.
pub open spec fn result_message(result: JsonValue) -> MessageView {
    MessageView { role: Role::User, content: "Tool call result: "@ + json_pretty(result) }
}

/// The message that reports a failed tool call to the model.
pub open spec fn failure_message(error_text: Seq<char>) -> MessageView {
    MessageView { role: Role::User, content: "Tool call failed: "@ + error_text }
}

/// The text of the error for a tool that is not registered.
pub open spec fn not_found_text(name: Seq<char>) -> Seq<char> {
    "Tool not found: "@ + name
}

/// The outcome of a tool call as a mathematical value: the result, or the
/// text of the error.
pub open spec fn outcome_view(outcome: Result<JsonDoc, SchatError>) -> Result<
    JsonValue,
    Seq<char>,
> {
    match outcome {
        Ok(doc) => Ok(doc@),
        Err(e) => Err(e.text()),
    }
}

/// The message that reports the outcome of a tool call to the model.
pub open spec fn outcome_message(outcome: Result<JsonValue, Seq<char>>) -> MessageView {
    match outcome {
        Ok(result) => result_message(result),
        Err(text) => failure_message(text),
    }
}

/// The message that reports a failed tool call.
fn failure_report(error: &SchatError) -> (r: Message)
    ensures
        r@ == failure_message(error.text()),
{
    let mut content = String::from_str("Tool call failed: ");
    content.append(error.message().as_str());
    Message { role: Role::User, content }
}

/// Takes a response of the provider into the conversation, as the
/// assistant's turn, and decides what follows.
pub fn on_response(state: &mut ChatState, response: &str, tools: &ToolSet) -> (r: TurnStep)
    ensures
        final(state)@.model == old(state)@.model,
        final(state)@.should_continue == old(state)@.should_continue,
        final(state)@.display_mode == old(state)@.display_mode,
        ({
            let with_reply = old(state)@.messages.push(
                MessageView { role: Role::Assistant, content: response@ },
            );
            match extraction(response@) {
                None => r is Done && final(state)@.messages == with_reply,
                Some((name, arguments)) => if tools.has(name) {
                    &&& final(state)@.messages == with_reply
                    &&& r matches TurnStep::CallTool(call)
                    &&& call.tool@ == tools.tool(name)
                    &&& call.arguments@ == arguments
                } else {
                    &&& r is AskAgain
                    &&& final(state)@.messages == with_reply.push(
                        failure_message(not_found_text(name)),
                    )
                },
            }
        }),
{
    state.push(Message::new(Role::Assistant, response));
    match extract_tool_call(response) {
        None => TurnStep::Done,
        Some(call) => {
            match tools.call_tool(call.tool_name.as_str(), call.arguments) {
                Ok(pending) => TurnStep::CallTool(pending),
                Err(e) => {
                    state.push(failure_report(&e));
                    TurnStep::AskAgain
                },
            }
        },
    }
}

/// Puts the outcome of a tool call into the conversation, as the user's
/// turn: the pretty-printed result, or the text of the error. The provider
/// is to be asked again after it.
pub fn on_tool_outcome(state: &mut ChatState, outcome: &Result<JsonDoc, SchatError>)
    ensures
        final(state)@ == (crate::commands::ChatView {
            messages: old(state)@.messages.push(outcome_message(outcome_view(*outcome))),
            ..old(state)@
        }),
{
    match outcome {
        Ok(result) => {
            let mut content = String::from_str("Tool call result: ");
            content.append(result.pretty().as_str());
            state.push(Message { role: Role::User, content });
        },
        Err(e) => {
            state.push(failure_report(e));
        },
    }
}

/// The state of the loop after a step.
pub fn state_after(step: &TurnStep) -> (r: LoopState)
    ensures
        r == if step is Done {
            LoopState::Done
        } else {
            LoopState::AwaitingResponse
        },
{
    match step {
        TurnStep::Done => LoopState::Done,
        _ => LoopState::AwaitingResponse,
    }
}

/// A whole turn as a mathematical value.
pub struct TurnView {
    /// The conversation at the end.
    pub messages: Seq<MessageView>,
    /// How often the provider was asked.
    pub provider_calls: nat,
    /// The tool calls that were made, in order: name and arguments.
    pub tool_calls: Seq<(Seq<char>, JsonValue)>,
    /// Whether the turn came to its end.
    pub finished: bool,
}

/// Plays a turn against a script: the provider answers with `responses`, one
/// after the other, and the tool calls end as `outcomes` say. The turn stops
/// at the first response without a tool call, and where the script runs out.
pub open spec fn turn_of(
    messages: Seq<MessageView>,
    tools: ToolSet,
    responses: Seq<Seq<char>>,
    outcomes: Seq<Result<JsonValue, Seq<char>>>,
) -> TurnView
    decreases responses.len(),
{
    if responses.len() == 0 {
        TurnView { messages, provider_calls: 0, tool_calls: Seq::empty(), finished: false }
    } else {
        let with_reply = messages.push(
            MessageView { role: Role::Assistant, content: responses[0] },
        );
        match extraction(responses[0]) {
            None => TurnView {
                messages: with_reply,
                provider_calls: 1,
                tool_calls: Seq::empty(),
                finished: true,
            },
            Some((name, arguments)) => if !tools.has(name) {
                let rest = turn_of(
                    with_reply.push(failure_message(not_found_text(name))),
                    tools,
                    responses.drop_first(),
                    outcomes,
                );
                TurnView { provider_calls: rest.provider_calls + 1, ..rest }
            } else if outcomes.len() == 0 {
                TurnView {
                    messages: with_reply,
                    provider_calls: 1,
                    tool_calls: seq![(name, arguments)],
                    finished: false,
                }
            } else {
                let rest = turn_of(
                    with_reply.push(outcome_message(outcomes[0])),
                    tools,
                    responses.drop_first(),
                    outcomes.drop_first(),
                );
                TurnView {
                    provider_calls: rest.provider_calls + 1,
                    tool_calls: seq![(name, arguments)] + rest.tool_calls,
                    ..rest
                }
            },
        }
    }
}

/// What `run_turn` reports.
pub struct TurnReport {
    pub provider_calls: usize,
    pub tool_calls: Vec<PendingCall>,
    pub finished: bool,
}

/// The texts of a vector of responses.
pub open spec fn response_texts(responses: Seq<String>) -> Seq<Seq<char>> {
    responses.map_values(|r: String| r@)
}

/// The scripted outcomes as mathematical values.
pub open spec fn outcome_views(outcomes: Seq<Result<JsonDoc, SchatError>>) -> Seq<
    Result<JsonValue, Seq<char>>,
> {
    outcomes.map_values(|o: Result<JsonDoc, SchatError>| outcome_view(o))
}

/// The tool calls of a report as mathematical values.
pub open spec fn call_views(calls: Seq<PendingCall>) -> Seq<(Seq<char>, JsonValue)> {
    calls.map_values(|c: PendingCall| (c.tool@.name, c.arguments@))
}

/// Plays a turn against a script of responses and tool outcomes.
pub fn run_turn(
    state: &mut ChatState,
    tools: &ToolSet,
    responses: &Vec<String>,
    outcomes: &Vec<Result<JsonDoc, SchatError>>,
) -> (r: TurnReport)
    ensures
        ({
            let turn = turn_of(
                old(state)@.messages,
                *tools,
                response_texts(responses@),
                outcome_views(outcomes@),
            );
            &&& final(state)@.messages == turn.messages
            &&& r.provider_calls == turn.provider_calls
            &&& call_views(r.tool_calls@) == turn.tool_calls
            &&& r.finished == turn.finished
        }),
        final(state)@.model == old(state)@.model,
        final(state)@.should_continue == old(state)@.should_continue,
        final(state)@.display_mode == old(state)@.display_mode,
{
    let ghost start = state@;
    let ghost whole = turn_of(
        start.messages,
        *tools,
        response_texts(responses@),
        outcome_views(outcomes@),
    );
    let mut calls: Vec<PendingCall> = Vec::new();
    let mut asked: usize = 0;
    let mut used: usize = 0;
    assert(response_texts(responses@).skip(0) =~= response_texts(responses@));
    assert(outcome_views(outcomes@).skip(0) =~= outcome_views(outcomes@));
    assert(Seq::<(Seq<char>, JsonValue)>::empty() + whole.tool_calls =~= whole.tool_calls);
    while asked < responses.len()
        invariant
            asked <= responses.len(),
            used <= outcomes.len(),
            start == old(state)@,
            state@.model == start.model,
            state@.should_continue == start.should_continue,
            state@.display_mode == start.display_mode,
            whole == turn_of(
                start.messages,
                *tools,
                response_texts(responses@),
                outcome_views(outcomes@),
            ),
            ({
                let rest = turn_of(
                    state@.messages,
                    *tools,
                    response_texts(responses@).skip(asked as int),
                    outcome_views(outcomes@).skip(used as int),
                );
                &&& whole.messages == rest.messages
                &&& whole.provider_calls == rest.provider_calls + asked
                &&& whole.tool_calls == call_views(calls@) + rest.tool_calls
                &&& whole.finished == rest.finished
            }),
        decreases responses.len() - asked,
    {
        let ghost rs = response_texts(responses@).skip(asked as int);
        let ghost os = outcome_views(outcomes@).skip(used as int);
        let ghost before_calls = call_views(calls@);
        assert(rs[0] == responses@[asked as int]@);
        assert(rs.drop_first() =~= response_texts(responses@).skip(asked + 1));
        match on_response(state, responses[asked].as_str(), tools) {
            TurnStep::Done => {
                assert(before_calls + Seq::<(Seq<char>, JsonValue)>::empty() =~= before_calls);
                return TurnReport { provider_calls: asked + 1, tool_calls: calls, finished: true };
            },
            TurnStep::AskAgain => {
                asked += 1;
            },
            TurnStep::CallTool(call) => {
                let ghost made = (call.tool@.name, call.arguments@);
                proof {
                    let found = extraction(rs[0])->0;
                    crate::mcp::lemma_position_from(tools.tools@, found.0, 0);
                }
                calls.push(call);
                assert(call_views(calls@) =~= before_calls.push(made));
                if used >= outcomes.len() {
                    assert(before_calls.push(made) =~= before_calls + seq![made]);
                    return TurnReport {
                        provider_calls: asked + 1,
                        tool_calls: calls,
                        finished: false,
                    };
                }
                assert(os[0] == outcome_view(outcomes@[used as int]));
                assert(os.drop_first() =~= outcome_views(outcomes@).skip(used + 1));
                on_tool_outcome(state, &outcomes[used]);
                proof {
                    let rest_calls = turn_of(
                        state@.messages,
                        *tools,
                        rs.drop_first(),
                        os.drop_first(),
                    ).tool_calls;
                    assert(before_calls + (seq![made] + rest_calls) =~= before_calls.push(made)
                        + rest_calls);
                }
                used += 1;
                asked += 1;
            },
        }
    }
    assert(call_views(calls@) + Seq::<(Seq<char>, JsonValue)>::empty() =~= call_views(calls@));
    TurnReport { provider_calls: asked, tool_calls: calls, finished: false }
}

/// A response that announces no tool ends the turn: the provider is asked
/// once, no tool is called, and the response is all that joins the
/// conversation.
pub proof fn law_plain_response_ends_turn(
    messages: Seq<MessageView>,
    tools: ToolSet,
    response: Seq<char>,
    later: Seq<Seq<char>>,
    outcomes: Seq<Result<JsonValue, Seq<char>>>,
)
    requires
        !announces_tool(response),
    ensures
        ({
            let turn = turn_of(messages, tools, seq![response] + later, outcomes);
            &&& turn.provider_calls == 1
            &&& turn.finished
            &&& turn.tool_calls.len() == 0
            &&& turn.messages == messages.push(
                MessageView { role: Role::Assistant, content: response },
            )
        }),
{
    assert((seq![response] + later)[0] == response);
}

/// A response that calls a registered tool, followed by one that announces
/// none: the tool is called once, with the arguments of the call; its
/// outcome joins the conversation as the user's turn before the provider is
/// asked the second time; and the turn ends there.
pub proof fn law_one_tool_call(
    messages: Seq<MessageView>,
    tools: ToolSet,
    first: Seq<char>,
    second: Seq<char>,
    outcome: Result<JsonValue, Seq<char>>,
)
    requires
        extraction(first) matches Some((name, _)) && tools.has(name),
        !announces_tool(second),
    ensures
        ({
            let turn = turn_of(messages, tools, seq![first, second], seq![outcome]);
            &&& turn.provider_calls == 2
            &&& turn.finished
            &&& turn.tool_calls == seq![extraction(first)->0]
            &&& turn.messages == messages.push(
                MessageView { role: Role::Assistant, content: first },
            ).push(outcome_message(outcome)).push(
                MessageView { role: Role::Assistant, content: second },
            )
        }),
{
    let rs = seq![first, second];
    assert(rs.drop_first() =~= seq![second]);
    assert(seq![outcome].drop_first() =~= Seq::<Result<JsonValue, Seq<char>>>::empty());
    reveal_with_fuel(turn_of, 3);
    let made = extraction(first)->0;
    assert(seq![made] + Seq::<(Seq<char>, JsonValue)>::empty() =~= seq![made]);
}

/// The turn leaves what the conversation held in place: it only appends.
pub proof fn law_turn_appends(
    messages: Seq<MessageView>,
    tools: ToolSet,
    responses: Seq<Seq<char>>,
    outcomes: Seq<Result<JsonValue, Seq<char>>>,
)
    ensures
        ({
            let turn = turn_of(messages, tools, responses, outcomes);
            &&& turn.messages.len() >= messages.len()
            &&& turn.messages.take(messages.len() as int) == messages
        }),
    decreases responses.len(),
{
    if responses.len() > 0 {
        let with_reply = messages.push(
            MessageView { role: Role::Assistant, content: responses[0] },
        );
        assert(with_reply.take(messages.len() as int) =~= messages);
        match extraction(responses[0]) {
            None => {},
            Some((name, arguments)) => {
                if !tools.has(name) {
                    let next = with_reply.push(failure_message(not_found_text(name)));
                    law_turn_appends(next, tools, responses.drop_first(), outcomes);
                    let turn = turn_of(next, tools, responses.drop_first(), outcomes);
                    assert(turn.messages.take(messages.len() as int) =~= turn.messages.take(
                        next.len() as int,
                    ).take(messages.len() as int));
                    assert(next.take(messages.len() as int) =~= messages);
                } else if outcomes.len() > 0 {
                    let next = with_reply.push(outcome_message(outcomes[0]));
                    law_turn_appends(next, tools, responses.drop_first(), outcomes.drop_first());
                    let turn = turn_of(
                        next,
                        tools,
                        responses.drop_first(),
                        outcomes.drop_first(),
                    );
                    assert(turn.messages.take(messages.len() as int) =~= turn.messages.take(
                        next.len() as int,
                    ).take(messages.len() as int));
                    assert(next.take(messages.len() as int) =~= messages);
                }
            },
        }
    }
}

/// What a line of input asks for.
#[derive(Debug)]
pub enum UserInput {
    /// Nothing: the line is empty, or a slash without a command.
    Nothing,
    /// A slash command with its arguments.
    Command { name: String, args: Vec<String> },
    /// A message to the model.
    Message(String),
}

/// A line of input as a mathematical value.
pub enum InputView {
    Nothing,
    Command { name: Seq<char>, args: Seq<Seq<char>> },
    Message(Seq<char>),
}

impl View for UserInput {
    type V = InputView;

    open spec fn view(&self) -> InputView {
        match self {
            UserInput::Nothing => InputView::Nothing,
            UserInput::Command { name, args } => InputView::Command {
                name: name@,
                args: texts_of(args@),
            },
            UserInput::Message(text) => InputView::Message(text@),
        }
    }
}

/// What a line of input asks for. The line is trimmed. A line that starts
/// with a slash is a command: the first word behind the slash is its name,
/// the other words are its arguments. Every other line that is not empty is
/// a message.
pub open spec fn input_of(line: Seq<char>) -> InputView {
    let t = trim(line);
    if t.len() == 0 {
        InputView::Nothing
    } else if t[0] == '/' {
        let parts = words_of(t.skip(1));
        if parts.len() == 0 {
            InputView::Nothing
        } else {
            InputView::Command { name: parts[0], args: parts.skip(1) }
        }
    } else {
        InputView::Message(t)
    }
}

/// Reads a line of input.
pub fn classify_input(line: &str) -> (r: UserInput)
    ensures
        r@ == input_of(line@),
{
    let text = trimmed(line);
    let t = chars_of(text.as_str());
    if t.len() == 0 {
        return UserInput::Nothing;
    }
    if t[0] != '/' {
        return UserInput::Message(text);
    }
    let n: usize = t.len();
    let rest = slice_of(text.as_str(), 1, n);
    assert(t@.subrange(1, n as int) =~= t@.skip(1));
    let mut parts = split_words(rest.as_str());
    if parts.len() == 0 {
        return UserInput::Nothing;
    }
    let ghost all = parts@;
    let name = parts.remove(0);
    assert(texts_of(parts@) =~= texts_of(all).skip(1));
    UserInput::Command { name, args: parts }
}

/// A turn keeps the conversation in shape: it starts with its one system
/// message before the turn and after it.
pub proof fn law_turn_keeps_system_message(
    messages: Seq<MessageView>,
    tools: ToolSet,
    responses: Seq<Seq<char>>,
    outcomes: Seq<Result<JsonValue, Seq<char>>>,
)
    requires
        one_system_message(messages),
    ensures
        one_system_message(turn_of(messages, tools, responses, outcomes).messages),
    decreases responses.len(),
{
    if responses.len() > 0 {
        let with_reply = messages.push(
            MessageView { role: Role::Assistant, content: responses[0] },
        );
        assert(one_system_message(with_reply));
        match extraction(responses[0]) {
            None => {},
            Some((name, arguments)) => {
                if !tools.has(name) {
                    let next = with_reply.push(failure_message(not_found_text(name)));
                    assert(one_system_message(next));
                    law_turn_keeps_system_message(next, tools, responses.drop_first(), outcomes);
                } else if outcomes.len() > 0 {
                    let next = with_reply.push(outcome_message(outcomes[0]));
                    assert(one_system_message(next));
                    law_turn_keeps_system_message(
                        next,
                        tools,
                        responses.drop_first(),
                        outcomes.drop_first(),
                    );
                }
            },
        }
    }
}

} // verus!
