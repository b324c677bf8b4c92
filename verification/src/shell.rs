//! The confirmation of a generated shell command: execute it, have it
//! explained (twice at most), or abort.

use crate::display::UserChoice;
use crate::error::SchatError;
use crate::providers::{conversation, copy_messages, Message, MessageView, Role};
use crate::strings::{replace_all, replaced};
use vstd::prelude::*;

verus! {

/// Where the confirmation stands. The history is a snapshot of the messages
/// so far, the command and the explanations included.
#[derive(Debug)]
pub enum ShellConfirmationState {
    Initial,
    AfterFirstDescribe(Vec<Message>),
    AfterSecondDescribe(Vec<Message>),
}

/// A state as a mathematical value.
pub enum ConfirmationView {
    Initial,
    AfterFirstDescribe(Seq<MessageView>),
    AfterSecondDescribe(Seq<MessageView>),
}

impl View for ShellConfirmationState {
    type V = ConfirmationView;

    open spec fn view(&self) -> ConfirmationView {
        match self {
            ShellConfirmationState::Initial => ConfirmationView::Initial,
            ShellConfirmationState::AfterFirstDescribe(h) => ConfirmationView::AfterFirstDescribe(
                conversation(h@),
            ),
            ShellConfirmationState::AfterSecondDescribe(h) => ConfirmationView::AfterSecondDescribe(
                conversation(h@),
            ),
        }
    }
}

/// How a confirmation ends.
#[derive(Debug, Clone, Copy, PartialEq, Eq, Structural)]
pub enum ShellOutcome {
    /// The command is handed to the executor.
    Run,
    /// Nothing is executed.
    Cancelled,
    /// A third explanation was asked for: nothing is executed, nothing is
    /// explained, nothing more is asked.
    Exhausted,
}

/// What follows a choice.
#[derive(Debug)]
pub enum ShellStep {
    /// The confirmation is over.
    Finish(ShellOutcome),
    /// The provider is to answer this conversation with an explanation.
    Explain(Vec<Message>),
}

/// A step as a mathematical value.
pub enum StepView {
    Finish(ShellOutcome),
    Explain(Seq<MessageView>),
}

impl View for ShellStep {
    type V = StepView;

    open spec fn view(&self) -> StepView {
        match self {
            ShellStep::Finish(o) => StepView::Finish(*o),
            ShellStep::Explain(request) => StepView::Explain(conversation(request@)),
        }
    }
}

/// The instruction that asks for an explanation of the command.
pub open spec fn describe_instruction() -> Seq<char> {
    "Explain the shell command that was just provided in a concise and easy-to-understand way. Describe what the command does, what its main flags/options mean, and provide a simple example if applicable."@
}

/// The instruction that asks for an explanation of the command.
pub fn describe_prompt() -> (r: &'static str)
    ensures
        r@ == describe_instruction(),
{
    "Explain the shell command that was just provided in a concise and easy-to-understand way. Describe what the command does, what its main flags/options mean, and provide a simple example if applicable."
}

/// The conversation that asks for an explanation: the history, the command
/// as the assistant's turn, and the instruction as the user's.
pub open spec fn explain_request(history: Seq<MessageView>, command: Seq<char>) -> Seq<
    MessageView,
> {
    history.push(MessageView { role: Role::Assistant, content: command }).push(
        MessageView { role: Role::User, content: describe_instruction() },
    )
}

/// The history that a state goes on from: the opening conversation at the
/// start, the held history after that.
pub open spec fn history_of(state: ConfirmationView, base: Seq<MessageView>) -> Seq<MessageView> {
    match state {
        ConfirmationView::Initial => base,
        ConfirmationView::AfterFirstDescribe(h) => h,
        ConfirmationView::AfterSecondDescribe(h) => h,
    }
}

/// What follows `choice` in `state`: executing and aborting end the
/// confirmation from every state; describing asks the provider, but no third
/// time.
pub open spec fn step_of(
    state: ConfirmationView,
    choice: UserChoice,
    base: Seq<MessageView>,
    command: Seq<char>,
) -> StepView {
    match choice {
        UserChoice::Execute => StepView::Finish(ShellOutcome::Run),
        UserChoice::Abort => StepView::Finish(ShellOutcome::Cancelled),
        UserChoice::Describe => match state {
            ConfirmationView::AfterSecondDescribe(_) => StepView::Finish(ShellOutcome::Exhausted),
            _ => StepView::Explain(explain_request(history_of(state, base), command)),
        },
    }
}

/// The state after the provider has answered `request` with `response`: the
/// answer joins the history as the assistant's turn.
pub open spec fn advanced(
    state: ConfirmationView,
    request: Seq<MessageView>,
    response: Seq<char>,
) -> ConfirmationView {
    let history = request.push(MessageView { role: Role::Assistant, content: response });
    match state {
        ConfirmationView::Initial => ConfirmationView::AfterFirstDescribe(history),
        ConfirmationView::AfterFirstDescribe(_) => ConfirmationView::AfterSecondDescribe(history),
        ConfirmationView::AfterSecondDescribe(h) => ConfirmationView::AfterSecondDescribe(h),
    }
}

/// Whether the user is asked at all: not where the flag or the configuration
/// confirms every command beforehand.
pub fn needs_confirmation(yes: bool, auto_confirm: bool) -> (r: bool)
    ensures
        r == !(yes || auto_confirm),
{
    !(yes || auto_confirm)
}

/// The conversation that asks for an explanation of `command`.
fn build_request(history: &Vec<Message>, command: &str) -> (r: Vec<Message>)
    ensures
        conversation(r@) == explain_request(conversation(history@), command@),
{
    let mut request = copy_messages(history);
    let ghost before = request@;
    request.push(Message::new(Role::Assistant, command));
    request.push(Message::new(Role::User, describe_prompt()));
    assert(conversation(request@) =~= explain_request(conversation(history@), command@)) by {
        assert(conversation(before) == conversation(history@));
        assert forall|i: int| 0 <= i < before.len() implies conversation(request@)[i]
            == conversation(history@)[i] by {
            assert(conversation(before)[i] == before[i]@);
        }
    }
    request
}

/// Decides what follows the user's `choice`. `base` is the conversation
/// that produced `command`.
pub fn decide(
    state: &ShellConfirmationState,
    choice: UserChoice,
    base: &Vec<Message>,
    command: &str,
) -> (r: ShellStep)
    ensures
        r@ == step_of(state@, choice, conversation(base@), command@),
{
    match choice {
        UserChoice::Execute => ShellStep::Finish(ShellOutcome::Run),
        UserChoice::Abort => ShellStep::Finish(ShellOutcome::Cancelled),
        UserChoice::Describe => match state {
            ShellConfirmationState::Initial => ShellStep::Explain(build_request(base, command)),
            ShellConfirmationState::AfterFirstDescribe(h) => ShellStep::Explain(
                build_request(h, command),
            ),
            ShellConfirmationState::AfterSecondDescribe(_) => ShellStep::Finish(
                ShellOutcome::Exhausted,
            ),
        },
    }
}

/// The state after the provider has answered `request` with `response`.
pub fn advance(state: ShellConfirmationState, request: Vec<Message>, response: &str) -> (r:
    ShellConfirmationState)
    ensures
        r@ == advanced(state@, conversation(request@), response@),
{
    let mut history = request;
    let ghost before = history@;
    match state {
        ShellConfirmationState::Initial => {
            history.push(Message::new(Role::Assistant, response));
            assert(conversation(history@) =~= conversation(before).push(
                MessageView { role: Role::Assistant, content: response@ },
            ));
            ShellConfirmationState::AfterFirstDescribe(history)
        },
        ShellConfirmationState::AfterFirstDescribe(_) => {
            history.push(Message::new(Role::Assistant, response));
            assert(conversation(history@) =~= conversation(before).push(
                MessageView { role: Role::Assistant, content: response@ },
            ));
            ShellConfirmationState::AfterSecondDescribe(history)
        },
        ShellConfirmationState::AfterSecondDescribe(h) => {
            ShellConfirmationState::AfterSecondDescribe(h)
        },
    }
}

/// How a run of choices ends.
pub struct RunView {
    /// The outcome, if the choices led to one.
    pub outcome: Option<ShellOutcome>,
    /// How often the provider was asked.
    pub calls: nat,
    /// The state that was reached.
    pub state: ConfirmationView,
}

/// Plays `choices` from `state`, each explanation answered by the next of
/// `responses`. The run stops at the first choice that ends the
/// confirmation, when the choices are used up, or when an answer is missing.
pub open spec fn run_of(
    state: ConfirmationView,
    base: Seq<MessageView>,
    command: Seq<char>,
    choices: Seq<UserChoice>,
    responses: Seq<Seq<char>>,
) -> RunView
    decreases choices.len(),
{
    if choices.len() == 0 {
        RunView { outcome: None, calls: 0, state }
    } else {
        match step_of(state, choices[0], base, command) {
            StepView::Finish(outcome) => RunView { outcome: Some(outcome), calls: 0, state },
            StepView::Explain(request) => if responses.len() == 0 {
                RunView { outcome: None, calls: 0, state }
            } else {
                let rest = run_of(
                    advanced(state, request, responses[0]),
                    base,
                    command,
                    choices.drop_first(),
                    responses.drop_first(),
                );
                RunView { outcome: rest.outcome, calls: rest.calls + 1, state: rest.state }
            },
        }
    }
}

/// The result of `replay`.
#[derive(Debug)]
pub struct Replay {
    pub outcome: Option<ShellOutcome>,
    pub calls: usize,
    pub state: ShellConfirmationState,
}

/// The texts of a vector of responses.
pub open spec fn response_texts(responses: Seq<String>) -> Seq<Seq<char>> {
    responses.map_values(|r: String| r@)
}

/// Plays a list of choices against scripted answers of the provider, from
/// the initial state.
pub fn replay(
    base: &Vec<Message>,
    command: &str,
    choices: &Vec<UserChoice>,
    responses: &Vec<String>,
) -> (r: Replay)
    ensures
        ({
            let run = run_of(
                ConfirmationView::Initial,
                conversation(base@),
                command@,
                choices@,
                response_texts(responses@),
            );
            r.outcome == run.outcome && r.calls == run.calls && r.state@ == run.state
        }),
{
    let mut state = ShellConfirmationState::Initial;
    let mut calls: usize = 0;
    let mut i: usize = 0;
    let ghost whole = run_of(
        ConfirmationView::Initial,
        conversation(base@),
        command@,
        choices@,
        response_texts(responses@),
    );
    assert(choices@.skip(0) =~= choices@);
    assert(response_texts(responses@).skip(0) =~= response_texts(responses@));
    while i < choices.len()
        invariant
            i <= choices.len(),
            calls <= i,
            calls <= responses.len(),
            whole == run_of(
                ConfirmationView::Initial,
                conversation(base@),
                command@,
                choices@,
                response_texts(responses@),
            ),
            ({
                let rest = run_of(
                    state@,
                    conversation(base@),
                    command@,
                    choices@.skip(i as int),
                    response_texts(responses@).skip(calls as int),
                );
                whole.outcome == rest.outcome && whole.calls == rest.calls + calls && whole.state
                    == rest.state
            }),
        decreases choices.len() - i,
    {
        let ghost cs = choices@.skip(i as int);
        let ghost rs = response_texts(responses@).skip(calls as int);
        assert(cs[0] == choices@[i as int]);
        match decide(&state, choices[i], base, command) {
            ShellStep::Finish(outcome) => {
                return Replay { outcome: Some(outcome), calls, state };
            },
            ShellStep::Explain(request) => {
                if calls >= responses.len() {
                    return Replay { outcome: None, calls, state };
                }
                assert(rs[0] == responses@[calls as int]@);
                assert(cs.drop_first() =~= choices@.skip(i + 1));
                assert(rs.drop_first() =~= response_texts(responses@).skip(calls + 1));
                state = advance(state, request, responses[calls].as_str());
                calls += 1;
                i += 1;
            },
        }
    }
    Replay { outcome: None, calls, state }
}

/// From the initial state two explanations in a row lead to the state after
/// the second, with two calls of the provider; a third request for one ends
/// the confirmation without a further call, and without executing or
/// aborting.
pub proof fn law_two_explanations(
    base: Seq<MessageView>,
    command: Seq<char>,
    responses: Seq<Seq<char>>,
)
    requires
        responses.len() >= 2,
    ensures
        ({
            let two = run_of(
                ConfirmationView::Initial,
                base,
                command,
                seq![UserChoice::Describe, UserChoice::Describe],
                responses,
            );
            let three = run_of(
                ConfirmationView::Initial,
                base,
                command,
                seq![UserChoice::Describe, UserChoice::Describe, UserChoice::Describe],
                responses,
            );
            &&& two.state is AfterSecondDescribe
            &&& two.calls == 2
            &&& two.outcome is None
            &&& three.outcome == Some(ShellOutcome::Exhausted)
            &&& three.calls == 2
            &&& three.state == two.state
        }),
{
    let d = UserChoice::Describe;
    let c2 = seq![d, d];
    let c3 = seq![d, d, d];
    assert(c2.drop_first() =~= seq![d]);
    assert(seq![d].drop_first() =~= Seq::<UserChoice>::empty());
    assert(c3.drop_first() =~= c2);
    assert(c2.drop_first().drop_first() =~= Seq::<UserChoice>::empty());
    reveal_with_fuel(run_of, 4);
    assert(responses.drop_first().len() >= 1);
}

/// From the state after the second explanation, no choice leads to a call of
/// the provider.
pub proof fn law_no_third_explanation(
    history: Seq<MessageView>,
    choice: UserChoice,
    base: Seq<MessageView>,
    command: Seq<char>,
)
    ensures
        step_of(ConfirmationView::AfterSecondDescribe(history), choice, base, command) is Finish,
{
}

/// Executing and aborting end the confirmation from every state: whatever
/// choices and answers would follow, the provider is not called again and
/// the outcome stands.
pub proof fn law_execute_and_abort_absorb(
    state: ConfirmationView,
    base: Seq<MessageView>,
    command: Seq<char>,
    choice: UserChoice,
    later: Seq<UserChoice>,
    responses: Seq<Seq<char>>,
)
    requires
        choice == UserChoice::Execute || choice == UserChoice::Abort,
    ensures
        ({
            let run = run_of(state, base, command, seq![choice] + later, responses);
            &&& run.calls == 0
            &&& run.state == state
            &&& run.outcome == Some(
                if choice == UserChoice::Execute {
                    ShellOutcome::Run
                } else {
                    ShellOutcome::Cancelled
                },
            )
        }),
{
    assert((seq![choice] + later)[0] == choice);
}

/// However many choices are made, the provider is asked at most twice.
pub proof fn law_at_most_two_explanations(
    base: Seq<MessageView>,
    command: Seq<char>,
    choices: Seq<UserChoice>,
    responses: Seq<Seq<char>>,
)
    ensures
        run_of(ConfirmationView::Initial, base, command, choices, responses).calls <= 2,
{
    lemma_calls_bound(ConfirmationView::Initial, base, command, choices, responses);
}

/// The explanations that a state still allows.
pub open spec fn explanations_left(state: ConfirmationView) -> nat {
    match state {
        ConfirmationView::Initial => 2,
        ConfirmationView::AfterFirstDescribe(_) => 1,
        ConfirmationView::AfterSecondDescribe(_) => 0,
    }
}

proof fn lemma_calls_bound(
    state: ConfirmationView,
    base: Seq<MessageView>,
    command: Seq<char>,
    choices: Seq<UserChoice>,
    responses: Seq<Seq<char>>,
)
    ensures
        run_of(state, base, command, choices, responses).calls <= explanations_left(state),
    decreases choices.len(),
{
    if choices.len() > 0 {
        match step_of(state, choices[0], base, command) {
            StepView::Finish(_) => {},
            StepView::Explain(request) => {
                if responses.len() > 0 {
                    lemma_calls_bound(
                        advanced(state, request, responses[0]),
                        base,
                        command,
                        choices.drop_first(),
                        responses.drop_first(),
                    );
                }
            },
        }
    }
}

/// The instruction to the model in shell mode, with places for the shell
/// and for the operating system.
pub open spec fn shell_instruction_template() -> Seq<char> {
    "Convert the natural language query to a single command that will work on the current system. Only output the bare command without any explanation or markdown formatting. Include any necessary flags to make the command compatible with the current shell and OS. The current shell is {shell} and the OS is {os_info}."@
}

/// The instruction to the model in shell mode: the template with the path
/// of the shell in the place of `{shell}` and then the description of the
/// system in the place of `{os_info}`.
pub open spec fn shell_instruction(shell_path: Seq<char>, os_info: Seq<char>) -> Seq<char> {
    replaced(replaced(shell_instruction_template(), "{shell}"@, shell_path), "{os_info}"@, os_info)
}

/// The instruction to the model in shell mode.
pub fn shell_prompt(shell_path: &str, os_info: &str) -> (r: String)
    ensures
        r@ == shell_instruction(shell_path@, os_info@),
{
    let with_shell = replace_all(
        "Convert the natural language query to a single command that will work on the current system. Only output the bare command without any explanation or markdown formatting. Include any necessary flags to make the command compatible with the current shell and OS. The current shell is {shell} and the OS is {os_info}.",
        "{shell}",
        shell_path,
    );
    replace_all(with_shell.as_str(), "{os_info}", os_info)
}

/// The instruction to the model in chat mode.
pub fn chat_prompt() -> (r: &'static str)
    ensures
        r@ == "You are a helpful assistant. Answer the following question in a concise manner: "@,
{
    "You are a helpful assistant. Answer the following question in a concise manner: "
}

/// The query that goes to the model: the query of the arguments, behind
/// what was piped in where something was; `None` where there is neither.
pub open spec fn query_of(query: Option<Seq<char>>, piped: Option<Seq<char>>) -> Option<
    Seq<char>,
> {
    match (query, piped) {
        (Some(q), Some(p)) => Some("<pipe>"@ + p + "</pipe>\n\n"@ + q),
        (None, Some(p)) => Some("<pipe>"@ + p + "</pipe>"@),
        (Some(q), None) => Some(q),
        (None, None) => None,
    }
}

/// The text of an optional string.
pub open spec fn text_of(o: Option<&str>) -> Option<Seq<char>> {
    match o {
        Some(s) => Some(s@),
        None => None,
    }
}

/// Puts the query together. Without a query and without piped input the
/// input is at fault, with `missing` as the words of the error.
pub fn compose_query(query: Option<&str>, piped: Option<&str>, missing: &str) -> (r: Result<
    String,
    SchatError,
>)
    ensures
        match query_of(text_of(query), text_of(piped)) {
            Some(text) => r matches Ok(t) && t@ == text,
            None => r matches Err(SchatError::Input(d)) && d@ == missing@,
        },
{
    match (query, piped) {
        (Some(q), Some(p)) => {
            let mut t = String::from_str("<pipe>");
            t.append(p);
            t.append("</pipe>\n\n");
            t.append(q);
            Ok(t)
        },
        (None, Some(p)) => {
            let mut t = String::from_str("<pipe>");
            t.append(p);
            t.append("</pipe>");
            Ok(t)
        },
        (Some(q), None) => Ok(String::from_str(q)),
        (None, None) => Err(SchatError::Input(String::from_str(missing))),
    }
}

/// The conversation that a single query starts: the instruction as the
/// system's message, the query as the user's.
pub fn opening(instruction: &str, query: &str) -> (r: Vec<Message>)
    ensures
        conversation(r@) == seq![
            MessageView { role: Role::System, content: instruction@ },
            MessageView { role: Role::User, content: query@ },
        ],
{
    let mut r: Vec<Message> = Vec::new();
    r.push(Message::new(Role::System, instruction));
    r.push(Message::new(Role::User, query));
    assert(conversation(r@) =~= seq![
        MessageView { role: Role::System, content: instruction@ },
        MessageView { role: Role::User, content: query@ },
    ]);
    r
}

} // verus!
