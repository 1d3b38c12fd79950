//! The dispatch engine, in three steps: the one handler call that a command
//! stands for, the call itself, and the one response to what it returned.

use vstd::prelude::*;

use crate::commands::{CommandView, GamepackCommand};
use crate::handler::{GamepackErrorView, GamepackHandler, GamepackResult};
use crate::json::{Json, JsonView};
use crate::responses::{GamepackResponse, ResponseView};
use crate::types::{
    GameEvent, GameEventView, GameStatus, GameStatusView, InitResponse, InitResponseView,
    IsMatchInProgressResponse, IsMatchInProgressResponseView, MatchData, MatchDataView,
};
use crate::version::PROTOCOL_VERSION;
use crate::views::{list_view, option_view};
use crate::wire::records::encode_match_data;

verus! {

/// A call on the handler, with what is handed to it.
#[derive(Debug, Clone, PartialEq, Eq)]
pub enum HandlerCall {
    Init,
    DetectRunning,
    GetStatus,
    PollEvents,
    GetLiveData,
    OnSessionStart,
    OnSessionEnd { context: Json },
    Shutdown,
    ResolveEventIcon { event_key: String },
    IsMatchInProgress { subpack: u8, external_match_id: String },
    GetSampleMatchData { subpack: u8 },
}

/// What a [`HandlerCall`] holds.
pub enum HandlerCallView {
    Init,
    DetectRunning,
    GetStatus,
    PollEvents,
    GetLiveData,
    OnSessionStart,
    OnSessionEnd { context: JsonView },
    Shutdown,
    ResolveEventIcon { event_key: Seq<char> },
    IsMatchInProgress { subpack: u8, external_match_id: Seq<char> },
    GetSampleMatchData { subpack: u8 },
}

impl View for HandlerCall {
    type V = HandlerCallView;

    open spec fn view(&self) -> HandlerCallView {
        match self {
            HandlerCall::Init => HandlerCallView::Init,
            HandlerCall::DetectRunning => HandlerCallView::DetectRunning,
            HandlerCall::GetStatus => HandlerCallView::GetStatus,
            HandlerCall::PollEvents => HandlerCallView::PollEvents,
            HandlerCall::GetLiveData => HandlerCallView::GetLiveData,
            HandlerCall::OnSessionStart => HandlerCallView::OnSessionStart,
            HandlerCall::OnSessionEnd { context } => HandlerCallView::OnSessionEnd {
                context: context@,
            },
            HandlerCall::Shutdown => HandlerCallView::Shutdown,
            HandlerCall::ResolveEventIcon { event_key } => HandlerCallView::ResolveEventIcon {
                event_key: event_key@,
            },
            HandlerCall::IsMatchInProgress { subpack, external_match_id } =>
                HandlerCallView::IsMatchInProgress {
                subpack: *subpack,
                external_match_id: external_match_id@,
            },
            HandlerCall::GetSampleMatchData { subpack } => HandlerCallView::GetSampleMatchData {
                subpack: *subpack,
            },
        }
    }
}

/// What a call on the handler returned, together with what of the call the
/// response repeats.
#[derive(Debug, PartialEq, Eq)]
pub enum HandlerReply {
    Init(GamepackResult<InitResponse>),
    DetectRunning(bool),
    GetStatus(GameStatus),
    PollEvents(Vec<GameEvent>),
    GetLiveData(Option<Json>),
    OnSessionStart(Option<Json>),
    OnSessionEnd(Option<MatchData>),
    Shutdown,
    ResolveEventIcon { event_key: String, icon_url: Option<String> },
    IsMatchInProgress(IsMatchInProgressResponse),
    GetSampleMatchData { subpack: u8, data: Option<Json> },
}

/// What a [`HandlerReply`] holds.
pub enum HandlerReplyView {
    Init(Result<InitResponseView, GamepackErrorView>),
    DetectRunning(bool),
    GetStatus(GameStatusView),
    PollEvents(Seq<GameEventView>),
    GetLiveData(Option<JsonView>),
    OnSessionStart(Option<JsonView>),
    OnSessionEnd(Option<MatchDataView>),
    Shutdown,
    ResolveEventIcon { event_key: Seq<char>, icon_url: Option<Seq<char>> },
    IsMatchInProgress(IsMatchInProgressResponseView),
    GetSampleMatchData { subpack: u8, data: Option<JsonView> },
}

/// What `init` returned, as the contracts speak of it.
pub open spec fn init_outcome_view(outcome: GamepackResult<InitResponse>) -> Result<
    InitResponseView,
    GamepackErrorView,
> {
    match outcome {
        Ok(init) => Ok(init@),
        Err(error) => Err(error@),
    }
}

impl View for HandlerReply {
    type V = HandlerReplyView;

    open spec fn view(&self) -> HandlerReplyView {
        match self {
            HandlerReply::Init(outcome) => HandlerReplyView::Init(init_outcome_view(*outcome)),
            HandlerReply::DetectRunning(running) => HandlerReplyView::DetectRunning(*running),
            HandlerReply::GetStatus(status) => HandlerReplyView::GetStatus(status@),
            HandlerReply::PollEvents(events) => HandlerReplyView::PollEvents(list_view(events@)),
            HandlerReply::GetLiveData(data) => HandlerReplyView::GetLiveData(option_view(*data)),
            HandlerReply::OnSessionStart(context) => HandlerReplyView::OnSessionStart(
                option_view(*context),
            ),
            HandlerReply::OnSessionEnd(match_data) => HandlerReplyView::OnSessionEnd(
                option_view(*match_data),
            ),
            HandlerReply::Shutdown => HandlerReplyView::Shutdown,
            HandlerReply::ResolveEventIcon { event_key, icon_url } =>
                HandlerReplyView::ResolveEventIcon {
                event_key: event_key@,
                icon_url: option_view(*icon_url),
            },
            HandlerReply::IsMatchInProgress(answer) => HandlerReplyView::IsMatchInProgress(answer@),
            HandlerReply::GetSampleMatchData { subpack, data } =>
                HandlerReplyView::GetSampleMatchData { subpack: *subpack, data: option_view(*data) },
        }
    }
}

/// The one call on the handler that a command stands for, with what is
/// handed to it. `GetMatchTimeline` stands for none: the engine answers it
/// by itself.
pub open spec fn call_for(command: CommandView) -> Option<HandlerCallView> {
    match command {
        CommandView::Init { .. } => Some(HandlerCallView::Init),
        CommandView::DetectRunning { .. } => Some(HandlerCallView::DetectRunning),
        CommandView::GetStatus { .. } => Some(HandlerCallView::GetStatus),
        CommandView::PollEvents { .. } => Some(HandlerCallView::PollEvents),
        CommandView::GetLiveData { .. } => Some(HandlerCallView::GetLiveData),
        CommandView::SessionStart { .. } => Some(HandlerCallView::OnSessionStart),
        CommandView::SessionEnd { context, .. } => Some(HandlerCallView::OnSessionEnd { context }),
        CommandView::Shutdown { .. } => Some(HandlerCallView::Shutdown),
        CommandView::ResolveEventIcon { event_key, .. } => Some(
            HandlerCallView::ResolveEventIcon { event_key },
        ),
        CommandView::IsMatchInProgress { subpack, external_match_id, .. } => Some(
            HandlerCallView::IsMatchInProgress { subpack, external_match_id },
        ),
        CommandView::GetMatchTimeline { .. } => None,
        CommandView::GetSampleMatchData { subpack, .. } => Some(
            HandlerCallView::GetSampleMatchData { subpack },
        ),
    }
}

/// Whether `reply` is a reply to `call`: it holds what the method of that
/// name returns, and repeats of the call what the response is to repeat.
pub open spec fn reply_fits(call: HandlerCallView, reply: HandlerReplyView) -> bool {
    match call {
        HandlerCallView::Init => reply is Init,
        HandlerCallView::DetectRunning => reply is DetectRunning,
        HandlerCallView::GetStatus => reply is GetStatus,
        HandlerCallView::PollEvents => reply is PollEvents,
        HandlerCallView::GetLiveData => reply is GetLiveData,
        HandlerCallView::OnSessionStart => reply is OnSessionStart,
        HandlerCallView::OnSessionEnd { .. } => reply is OnSessionEnd,
        HandlerCallView::Shutdown => reply is Shutdown,
        HandlerCallView::ResolveEventIcon { event_key } => reply
            matches HandlerReplyView::ResolveEventIcon { event_key: repeated, .. } && repeated
            == event_key,
        HandlerCallView::IsMatchInProgress { .. } => reply is IsMatchInProgress,
        HandlerCallView::GetSampleMatchData { subpack } => reply
            matches HandlerReplyView::GetSampleMatchData { subpack: repeated, .. } && repeated
            == subpack,
    }
}

/// Whether `reply` is what comes back of the call, if any, that a command
/// stands for.
pub open spec fn reply_fits_plan(call: Option<HandlerCallView>, reply: Option<HandlerReplyView>) -> bool {
    match call {
        Some(c) => reply matches Some(r) && reply_fits(c, r),
        None => reply is None,
    }
}

/// The version that an `Initialized` response announces for the version a
/// handler declares: the declared one, or the protocol's own where the
/// handler declares `0`.
pub open spec fn negotiated_version(declared: u32) -> u32 {
    if declared > 0 {
        declared
    } else {
        PROTOCOL_VERSION
    }
}

/// The response to `Init` for what the handler's `init` returned.
pub open spec fn init_reply(
    request_id: Seq<char>,
    outcome: Result<InitResponseView, GamepackErrorView>,
) -> ResponseView {
    match outcome {
        Ok(init) => ResponseView::Initialized {
            request_id,
            game_id: init.game_id,
            slug: init.slug,
            protocol_version: negotiated_version(init.protocol_version),
        },
        Err(error) => ResponseView::Error { request_id, message: error.message, code: error.code },
    }
}

/// The response to `GetStatus` for the status the handler reported.
pub open spec fn status_reply(request_id: Seq<char>, status: GameStatusView) -> ResponseView {
    ResponseView::GameStatus {
        request_id,
        connected: status.connected,
        connection_status: status.connection_status,
        game_phase: status.game_phase,
        is_in_game: status.is_in_game,
    }
}

/// The response to `SessionEnd` for the match data the handler returned.
pub open spec fn session_end_reply(
    request_id: Seq<char>,
    match_data: Option<MatchDataView>,
) -> ResponseView {
    ResponseView::SessionEnded {
        request_id,
        match_data: match match_data {
            Some(m) => Some(encode_match_data(m)),
            None => None,
        },
    }
}

/// The response to `IsMatchInProgress` for the handler's answer.
pub open spec fn match_in_progress_reply(
    request_id: Seq<char>,
    answer: IsMatchInProgressResponseView,
) -> ResponseView {
    ResponseView::MatchInProgressStatus {
        request_id,
        still_playing: answer.still_playing,
        set_complete: answer.set_complete,
    }
}

/// The response to `GetMatchTimeline`: the engine itself says that the match
/// was not found.
pub open spec fn timeline_reply(request_id: Seq<char>) -> ResponseView {
    ResponseView::MatchTimeline { request_id, found: false, entries: Seq::empty() }
}

/// The response to `GetSampleMatchData` for the data the handler returned;
/// `null` where it returned none.
pub open spec fn sample_data_reply(
    request_id: Seq<char>,
    subpack: u8,
    data: Option<JsonView>,
) -> ResponseView {
    ResponseView::SampleMatchData {
        request_id,
        subpack,
        data: match data {
            Some(d) => d,
            None => JsonView::Null,
        },
    }
}

/// The one response to what came back of a command's handler call; to no
/// reply, where the command stands for no call.
pub open spec fn response_to(request_id: Seq<char>, reply: Option<HandlerReplyView>) -> ResponseView {
    match reply {
        None => timeline_reply(request_id),
        Some(HandlerReplyView::Init(outcome)) => init_reply(request_id, outcome),
        Some(HandlerReplyView::DetectRunning(running)) => ResponseView::RunningStatus {
            request_id,
            running,
        },
        Some(HandlerReplyView::GetStatus(status)) => status_reply(request_id, status),
        Some(HandlerReplyView::PollEvents(events)) => ResponseView::Events { request_id, events },
        Some(HandlerReplyView::GetLiveData(data)) => ResponseView::LiveData { request_id, data },
        Some(HandlerReplyView::OnSessionStart(context)) => ResponseView::SessionStarted {
            request_id,
            context,
        },
        Some(HandlerReplyView::OnSessionEnd(match_data)) => session_end_reply(
            request_id,
            match_data,
        ),
        Some(HandlerReplyView::Shutdown) => ResponseView::ShutdownComplete { request_id },
        Some(HandlerReplyView::ResolveEventIcon { event_key, icon_url }) =>
            ResponseView::EventIconResolved { request_id, event_key, icon_url },
        Some(HandlerReplyView::IsMatchInProgress(answer)) => match_in_progress_reply(
            request_id,
            answer,
        ),
        Some(HandlerReplyView::GetSampleMatchData { subpack, data }) => sample_data_reply(
            request_id,
            subpack,
            data,
        ),
    }
}

/// Whether `response` answers `command`: it is the response to some reply
/// to the one call that the command stands for, under the command's
/// `request_id`.
pub open spec fn answers(command: CommandView, response: ResponseView) -> bool {
    exists|reply: Option<HandlerReplyView>|
        reply_fits_plan(call_for(command), reply) && response == #[trigger] response_to(
            command.request_id(),
            reply,
        )
}

/// The `request_id` of a command and the one call on the handler that the
/// command stands for, with what is handed to it.
pub fn plan(cmd: GamepackCommand) -> (r: (String, Option<HandlerCall>))
    ensures
        r.0@ == cmd@.request_id(),
        option_view(r.1) == call_for(cmd@),
{
    match cmd {
        GamepackCommand::Init { request_id } => (request_id, Some(HandlerCall::Init)),
        GamepackCommand::DetectRunning { request_id } => (
            request_id,
            Some(HandlerCall::DetectRunning),
        ),
        GamepackCommand::GetStatus { request_id } => (request_id, Some(HandlerCall::GetStatus)),
        GamepackCommand::PollEvents { request_id } => (request_id, Some(HandlerCall::PollEvents)),
        GamepackCommand::GetLiveData { request_id } => (request_id, Some(HandlerCall::GetLiveData)),
        GamepackCommand::SessionStart { request_id } => (
            request_id,
            Some(HandlerCall::OnSessionStart),
        ),
        GamepackCommand::SessionEnd { request_id, context } => (
            request_id,
            Some(HandlerCall::OnSessionEnd { context }),
        ),
        GamepackCommand::Shutdown { request_id } => (request_id, Some(HandlerCall::Shutdown)),
        GamepackCommand::ResolveEventIcon { request_id, event_key } => (
            request_id,
            Some(HandlerCall::ResolveEventIcon { event_key }),
        ),
        GamepackCommand::IsMatchInProgress { request_id, subpack, external_match_id } => (
            request_id,
            Some(HandlerCall::IsMatchInProgress { subpack, external_match_id }),
        ),
        GamepackCommand::GetMatchTimeline { request_id, .. } => (request_id, None),
        GamepackCommand::GetSampleMatchData { request_id, subpack } => (
            request_id,
            Some(HandlerCall::GetSampleMatchData { subpack }),
        ),
    }
}

/// Makes one call on the handler: the method that the call names, with
/// what the call holds.
pub fn perform<H: GamepackHandler>(handler: &mut H, call: HandlerCall) -> (reply: HandlerReply)
    ensures
        reply_fits(call@, reply@),
{
    match call {
        HandlerCall::Init => HandlerReply::Init(handler.init()),
        HandlerCall::DetectRunning => HandlerReply::DetectRunning(handler.detect_running()),
        HandlerCall::GetStatus => HandlerReply::GetStatus(handler.get_status()),
        HandlerCall::PollEvents => HandlerReply::PollEvents(handler.poll_events()),
        HandlerCall::GetLiveData => HandlerReply::GetLiveData(handler.get_live_data()),
        HandlerCall::OnSessionStart => HandlerReply::OnSessionStart(handler.on_session_start()),
        HandlerCall::OnSessionEnd { context } => HandlerReply::OnSessionEnd(
            handler.on_session_end(context),
        ),
        HandlerCall::Shutdown => {
            handler.shutdown();
            HandlerReply::Shutdown
        },
        HandlerCall::ResolveEventIcon { event_key } => {
            let icon_url = handler.resolve_event_icon(event_key.as_str());
            HandlerReply::ResolveEventIcon { event_key, icon_url }
        },
        HandlerCall::IsMatchInProgress { subpack, external_match_id } =>
            HandlerReply::IsMatchInProgress(
            handler.is_match_in_progress(subpack, external_match_id.as_str()),
        ),
        HandlerCall::GetSampleMatchData { subpack } => HandlerReply::GetSampleMatchData {
            subpack,
            data: handler.get_sample_match_data(subpack),
        },
    }
}

/// The response to `Init` for what the handler's `init` returned.
pub fn reply_to_init(request_id: String, outcome: GamepackResult<InitResponse>) -> (response:
    GamepackResponse)
    ensures
        response@ == init_reply(request_id@, init_outcome_view(outcome)),
{
    match outcome {
        Ok(InitResponse { game_id, slug, protocol_version }) => GamepackResponse::Initialized {
            request_id,
            game_id,
            slug,
            protocol_version: if protocol_version > 0 {
                protocol_version
            } else {
                PROTOCOL_VERSION
            },
        },
        Err(e) => GamepackResponse::Error { request_id, message: e.message, code: e.code },
    }
}

/// The response to `GetStatus` for the status the handler reported.
pub fn reply_to_get_status(request_id: String, status: GameStatus) -> (response: GamepackResponse)
    ensures
        response@ == status_reply(request_id@, status@),
{
    GamepackResponse::GameStatus {
        request_id,
        connected: status.connected,
        connection_status: status.connection_status,
        game_phase: status.game_phase,
        is_in_game: status.is_in_game,
    }
}

/// The response to `SessionEnd` for the match data the handler returned.
pub fn reply_to_session_end(request_id: String, match_data: Option<MatchData>) -> (response:
    GamepackResponse)
    ensures
        response@ == session_end_reply(request_id@, option_view(match_data)),
{
    let payload = match match_data {
        Some(m) => Some(m.to_json()),
        None => None,
    };
    GamepackResponse::SessionEnded { request_id, match_data: payload }
}

/// The response to `IsMatchInProgress` for the handler's answer.
pub fn reply_to_is_match_in_progress(
    request_id: String,
    answer: IsMatchInProgressResponse,
) -> (response: GamepackResponse)
    ensures
        response@ == match_in_progress_reply(request_id@, answer@),
{
    GamepackResponse::MatchInProgressStatus {
        request_id,
        still_playing: answer.still_playing,
        set_complete: answer.set_complete,
    }
}

/// The response to `GetMatchTimeline`.
pub fn reply_to_get_match_timeline(request_id: String) -> (response: GamepackResponse)
    ensures
        response@ == timeline_reply(request_id@),
{
    let response = GamepackResponse::MatchTimeline {
        request_id,
        found: false,
        entries: Vec::new(),
    };
    assert(response@->MatchTimeline_entries =~= Seq::empty());
    response
}

/// The response to `GetSampleMatchData` for the data the handler returned.
pub fn reply_to_get_sample_match_data(request_id: String, subpack: u8, data: Option<Json>) -> (response:
    GamepackResponse)
    ensures
        response@ == sample_data_reply(request_id@, subpack, option_view(data)),
{
    let payload = match data {
        Some(d) => d,
        None => Json::Null,
    };
    GamepackResponse::SampleMatchData { request_id, subpack, data: payload }
}

/// The one response to what came back of a command's handler call; to no
/// reply, where the command stands for no call.
pub fn respond(request_id: String, reply: Option<HandlerReply>) -> (response: GamepackResponse)
    ensures
        response@ == response_to(request_id@, option_view(reply)),
{
    match reply {
        None => reply_to_get_match_timeline(request_id),
        Some(HandlerReply::Init(outcome)) => reply_to_init(request_id, outcome),
        Some(HandlerReply::DetectRunning(running)) => GamepackResponse::RunningStatus {
            request_id,
            running,
        },
        Some(HandlerReply::GetStatus(status)) => reply_to_get_status(request_id, status),
        Some(HandlerReply::PollEvents(events)) => GamepackResponse::Events { request_id, events },
        Some(HandlerReply::GetLiveData(data)) => GamepackResponse::LiveData { request_id, data },
        Some(HandlerReply::OnSessionStart(context)) => GamepackResponse::SessionStarted {
            request_id,
            context,
        },
        Some(HandlerReply::OnSessionEnd(match_data)) => reply_to_session_end(
            request_id,
            match_data,
        ),
        Some(HandlerReply::Shutdown) => GamepackResponse::ShutdownComplete { request_id },
        Some(HandlerReply::ResolveEventIcon { event_key, icon_url }) =>
            GamepackResponse::EventIconResolved { request_id, event_key, icon_url },
        Some(HandlerReply::IsMatchInProgress(answer)) => reply_to_is_match_in_progress(
            request_id,
            answer,
        ),
        Some(HandlerReply::GetSampleMatchData { subpack, data }) => reply_to_get_sample_match_data(
            request_id,
            subpack,
            data,
        ),
    }
}

/// Every response to a command carries the command's `request_id`, is of
/// the kind that the command calls for, and repeats what the command names.
pub proof fn lemma_answer_shape(command: CommandView, response: ResponseView)
    requires
        answers(command, response),
    ensures
        response.request_id() == command.request_id(),
        !(response is WriteMatchData),
        response is ShutdownComplete <==> command is Shutdown,
        command is Init ==> response is Initialized || response is Error,
        command is Init && response is Initialized ==> response->Initialized_protocol_version != 0,
        command is DetectRunning ==> response is RunningStatus,
        command is GetStatus ==> response is GameStatus,
        command is PollEvents ==> response is Events,
        command is GetLiveData ==> response is LiveData,
        command is SessionStart ==> response is SessionStarted,
        command is SessionEnd ==> response is SessionEnded,
        command matches CommandView::ResolveEventIcon { event_key, .. } ==> response
            matches ResponseView::EventIconResolved { event_key: repeated, .. } && repeated
            == event_key,
        command is IsMatchInProgress ==> response is MatchInProgressStatus,
        command is GetMatchTimeline ==> response == timeline_reply(command.request_id()),
        command matches CommandView::GetSampleMatchData { subpack, .. } ==> response
            matches ResponseView::SampleMatchData { subpack: repeated, .. } && repeated == subpack,
{
}

/// Where a handler leaves `is_match_in_progress` as it is, the response to
/// `IsMatchInProgress` says that the match has ended and carries no final
/// stats.
pub proof fn lemma_default_match_check_reply(request_id: Seq<char>)
    ensures
        response_to(
            request_id,
            Some(HandlerReplyView::IsMatchInProgress(IsMatchInProgressResponse::ended_view())),
        ) == (ResponseView::MatchInProgressStatus {
            request_id,
            still_playing: false,
            set_complete: None,
        }),
{
}

} // verus!
