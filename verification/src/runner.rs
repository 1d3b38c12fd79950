//! The main loop, line by line: reading a command from a line, answering
//! it through the dispatch engine, and framing the response as a line.

use vstd::prelude::*;

use crate::commands::{CommandView, GamepackCommand};
use crate::dispatch::{answers, lemma_answer_shape, perform, plan, respond};
use crate::framing::{frame, is_one_line};
use crate::handler::GamepackHandler;
use crate::json::{json_parse, json_text, parsed_view, Json, JsonView};
use crate::responses::{GamepackResponse, ResponseView};
use crate::text::{is_blank, line_is_blank};
use crate::types::MatchDataMessage;
use crate::views::option_view;
use crate::wire::commands::decode_command;
use crate::wire::responses::encode_response;
use crate::wire::{decoded_view, DecodeError, DecodeErrorView};

verus! {

/// Dispatch a command to the appropriate handler method.
///
/// Makes the one handler call that the command stands for, with what the
/// command hands to it, and turns what it returned into the one response.
/// `GetMatchTimeline` is answered without a handler call.
pub fn dispatch_command<H: GamepackHandler>(handler: &mut H, cmd: GamepackCommand) -> (response:
    GamepackResponse)
    ensures
        answers(cmd@, response@),
        response@.request_id() == cmd@.request_id(),
        !(response@ is WriteMatchData),
        response@ is ShutdownComplete <==> cmd@ is Shutdown,
{
    let (request_id, call) = plan(cmd);
    let reply = match call {
        Some(call) => Some(perform(handler, call)),
        None => None,
    };
    let response = respond(request_id, reply);
    proof {
        lemma_answer_shape(cmd@, response@);
    }
    response
}

// ---------------------------------------------------------------------------
// Framing
// ---------------------------------------------------------------------------

/// The line that carries a response: its object as compact JSON text, and
/// one line feed. There is none where the object cannot be written.
pub open spec fn line_for(response: ResponseView) -> Option<Seq<char>> {
    match json_text(encode_response(response)) {
        Some(text) => Some(frame(text)),
        None => None,
    }
}

/// The command that a line stands for, given what the JSON parser made of
/// the line.
pub open spec fn parsed_command(parsed: Result<JsonView, Seq<char>>) -> Result<
    CommandView,
    DecodeErrorView,
> {
    match parsed {
        Ok(j) => decode_command(j),
        Err(message) => Err(DecodeErrorView::Syntax(message)),
    }
}

/// Whether a line stands for the command `Shutdown`.
pub open spec fn asks_shutdown(line: Seq<char>) -> bool {
    parsed_command(json_parse(line)) matches Ok(command) && command is Shutdown
}

/// The response to a line that stands for no command: an error without a
/// `request_id`.
pub open spec fn parse_error_reply(error: DecodeErrorView) -> ResponseView {
    ResponseView::Error {
        request_id: Seq::empty(),
        message: "Parse error: "@ + DecodeError::text(error),
        code: None,
    }
}

/// Whether `response` is a response that a line calls for: one that
/// answers the command the line stands for, or the parse error where it
/// stands for none.
pub open spec fn replies_to(line: Seq<char>, response: ResponseView) -> bool {
    match parsed_command(json_parse(line)) {
        Ok(command) => answers(command, response),
        Err(error) => response == parse_error_reply(error),
    }
}

/// The line that carries a response, if its object can be written.
pub fn response_line(response: &GamepackResponse) -> (line: Option<String>)
    ensures
        option_view(line) == line_for(response@),
        line matches Some(l) ==> is_one_line(l@),
{
    match response.to_json().to_text() {
        Some(text) => {
            let ghost body = text@;
            let mut line = text;
            line.append("\n");
            proof {
                reveal_strlit("\n");
                assert(line@ =~= frame(body));
                assert(line@.drop_last() =~= body);
            }
            Some(line)
        },
        None => None,
    }
}

/// The line that carries a match data message to the daemon unasked: the
/// line of the `WriteMatchData` response that holds it.
pub fn match_data_line(message: MatchDataMessage) -> (line: Option<String>)
    ensures
        option_view(line) == line_for(ResponseView::WriteMatchData { message: message@ }),
        line matches Some(l) ==> is_one_line(l@),
{
    let response = GamepackResponse::WriteMatchData { message };
    response_line(&response)
}

/// The command that a line stands for, given what the JSON parser made of
/// the line.
pub fn command_from_parsed(parsed: Result<Json, String>) -> (r: Result<GamepackCommand, DecodeError>)
    ensures
        decoded_view(r) == parsed_command(parsed_view(parsed)),
{
    match parsed {
        Ok(j) => GamepackCommand::from_json(&j),
        Err(message) => Err(DecodeError::Syntax(message)),
    }
}

/// Reads a command from a line of JSON text.
pub fn parse_command(line: &str) -> (r: Result<GamepackCommand, DecodeError>)
    ensures
        decoded_view(r) == parsed_command(json_parse(line@)),
{
    command_from_parsed(Json::parse(line))
}

/// The response to a line that stands for no command.
pub fn reply_to_parse_error(error: &DecodeError) -> (response: GamepackResponse)
    ensures
        response@ == parse_error_reply(error@),
{
    let mut message = "Parse error: ".to_owned();
    message.append(error.to_string().as_str());
    GamepackResponse::Error { request_id: String::new(), message, code: None }
}

/// Answers one line: the response of the command that it stands for, or
/// the parse error where it stands for none.
pub fn respond_to_line<H: GamepackHandler>(handler: &mut H, line: &str) -> (response:
    GamepackResponse)
    ensures
        replies_to(line@, response@),
        !(response@ is WriteMatchData),
        response@ is ShutdownComplete <==> asks_shutdown(line@),
{
    match parse_command(line) {
        Ok(cmd) => dispatch_command(handler, cmd),
        Err(e) => reply_to_parse_error(&e),
    }
}

// ---------------------------------------------------------------------------
// The main loop
// ---------------------------------------------------------------------------

/// The state of the main loop.
#[derive(Debug, Clone, Copy, PartialEq, Eq, Structural)]
pub enum LoopState {
    /// Lines are read and answered.
    Running,
    /// The conversation is over; nothing is read or written any more.
    Stopped,
}

/// What the main loop did with one line.
#[derive(Debug, Clone, PartialEq, Eq)]
pub struct Step {
    /// The state after the line.
    pub state: LoopState,
    /// The response to the line, if the line called for one.
    pub response: Option<GamepackResponse>,
    /// The line to write and flush, if there is one.
    pub output: Option<String>,
}

/// The state after a line was answered with `response`, of which `written`
/// says whether there is a line for it: the loop stops once the response to
/// `Shutdown` goes out, and never leaves `Stopped`.
pub open spec fn next_state(state: LoopState, response: ResponseView, written: bool) -> LoopState {
    if state == LoopState::Running && response is ShutdownComplete && written {
        LoopState::Stopped
    } else {
        state
    }
}

/// Answers one line of input, or skips it: once stopped, the loop answers
/// nothing, and a blank line calls for no answer. Any other line gets
/// exactly one response.
pub fn answer_line<H: GamepackHandler>(state: LoopState, handler: &mut H, line: &str) -> (response:
    Option<GamepackResponse>)
    ensures
        response is None <==> state == LoopState::Stopped || is_blank(line@),
        response matches Some(r) ==> replies_to(line@, r@) && !(r@ is WriteMatchData),
        response matches Some(r) ==> (r@ is ShutdownComplete <==> asks_shutdown(line@)),
{
    if state == LoopState::Stopped || line_is_blank(line) {
        None
    } else {
        Some(respond_to_line(handler, line))
    }
}

/// The state after a line was answered with `response`, of which `written`
/// says whether it went out.
pub fn advance(state: LoopState, response: &GamepackResponse, written: bool) -> (next: LoopState)
    ensures
        next == next_state(state, response@, written),
{
    match (state, response) {
        (LoopState::Running, GamepackResponse::ShutdownComplete { .. }) => if written {
            LoopState::Stopped
        } else {
            LoopState::Running
        },
        _ => state,
    }
}

/// Handles one line of input.
///
/// Once stopped, the loop answers nothing and stays stopped. A blank line
/// is skipped. Any other line gets exactly one response: the answer to the
/// command it stands for, or a parse error without a `request_id`, after
/// which the loop goes on. The loop stops when the answer to `Shutdown`
/// goes out.
pub fn process_line<H: GamepackHandler>(state: LoopState, handler: &mut H, line: &str) -> (step:
    Step)
    ensures
        state == LoopState::Stopped || is_blank(line@) ==> step.state == state
            && step.response is None && step.output is None,
        state == LoopState::Running && !is_blank(line@) ==> step.response is Some,
        step.response matches Some(response) ==> replies_to(line@, response@) && option_view(
            step.output,
        ) == line_for(response@) && step.state == next_state(
            state,
            response@,
            step.output is Some,
        ),
        step.output matches Some(l) ==> is_one_line(l@),
        step.state == LoopState::Stopped && state == LoopState::Running ==> asks_shutdown(line@),
{
    match answer_line(state, handler, line) {
        Some(response) => {
            let output = response_line(&response);
            let state = advance(state, &response, output.is_some());
            Step { state, response: Some(response), output }
        },
        None => Step { state, response: None, output: None },
    }
}

/// No line leads out of `Stopped`.
pub proof fn lemma_stopped_is_terminal(response: ResponseView, written: bool)
    ensures
        next_state(LoopState::Stopped, response, written) == LoopState::Stopped,
{
}

/// A line that stands for no command never stops the loop: its response
/// is an error without a `request_id`.
pub proof fn lemma_malformed_line_is_survived(line: Seq<char>, response: ResponseView, written: bool)
    requires
        parsed_command(json_parse(line)) is Err,
        replies_to(line, response),
    ensures
        response is Error,
        response.request_id() == Seq::<char>::empty(),
        next_state(LoopState::Running, response, written) == LoopState::Running,
{
}

} // verus!
