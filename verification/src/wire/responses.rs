//! The wire layout of responses.

use vstd::prelude::*;

use crate::json::{
    group_lookup, lemma_object_view, members_view, push_member, push_optional,
    push_optional_member, Json, JsonView, Members,
};
use crate::responses::{GamepackResponse, ResponseView};
use crate::text::str_eq;
use crate::types::{MatchDataMessage, MatchDataMessageView};
use crate::views::option_view;
use crate::wire::commands::head;
use crate::wire::messages::{
    decode_match_data_message, encode_match_data_message, lemma_match_data_message_round_trip,
};
use crate::wire::records::{
    decode_entries, decode_events, encode_entries, encode_events, entries_from_json,
    entries_to_json, events_from_json, events_to_json, json_of_optional_text,
    lemma_entries_round_trip, lemma_events_round_trip, optional_text_json,
};
use crate::wire::{
    array_field, bool_field, decoded_option_view, decoded_view, get_optional, get_required,
    i32_field, json_of_signed, json_of_text, json_of_unsigned, members_of, object_members,
    optional, optional_text_field, read_array_field, read_as, read_bool_field, read_i32_field,
    read_optional_text_field, read_text_field, read_u32_field, read_u8_field, required,
    signed_json, text_field, text_json, u32_field, u8_field, unsigned_json, DecodeError,
    DecodeErrorView,
};

verus! {

/// The variants of a response, without what they carry.
#[derive(Debug, Clone, Copy, PartialEq, Eq, Structural)]
pub enum ResponseKind {
    Initialized,
    RunningStatus,
    GameStatus,
    Events,
    LiveData,
    SessionStarted,
    SessionEnded,
    Error,
    ShutdownComplete,
    EventIconResolved,
    MatchInProgressStatus,
    MatchTimeline,
    WriteMatchData,
    SampleMatchData,
}

impl ResponseKind {
    /// The name that the member `type` gives the variant.
    pub open spec fn tag(self) -> Seq<char> {
        match self {
            ResponseKind::Initialized => "initialized"@,
            ResponseKind::RunningStatus => "running_status"@,
            ResponseKind::GameStatus => "game_status"@,
            ResponseKind::Events => "events"@,
            ResponseKind::LiveData => "live_data"@,
            ResponseKind::SessionStarted => "session_started"@,
            ResponseKind::SessionEnded => "session_ended"@,
            ResponseKind::Error => "error"@,
            ResponseKind::ShutdownComplete => "shutdown_complete"@,
            ResponseKind::EventIconResolved => "event_icon_resolved"@,
            ResponseKind::MatchInProgressStatus => "match_in_progress_status"@,
            ResponseKind::MatchTimeline => "match_timeline"@,
            ResponseKind::WriteMatchData => "write_match_data"@,
            ResponseKind::SampleMatchData => "sample_match_data"@,
        }
    }

    /// The variant that `tag` names.
    pub open spec fn named(tag: Seq<char>) -> Option<ResponseKind> {
        if tag == "initialized"@ {
            Some(ResponseKind::Initialized)
        } else if tag == "running_status"@ {
            Some(ResponseKind::RunningStatus)
        } else if tag == "game_status"@ {
            Some(ResponseKind::GameStatus)
        } else if tag == "events"@ {
            Some(ResponseKind::Events)
        } else if tag == "live_data"@ {
            Some(ResponseKind::LiveData)
        } else if tag == "session_started"@ {
            Some(ResponseKind::SessionStarted)
        } else if tag == "session_ended"@ {
            Some(ResponseKind::SessionEnded)
        } else if tag == "error"@ {
            Some(ResponseKind::Error)
        } else if tag == "shutdown_complete"@ {
            Some(ResponseKind::ShutdownComplete)
        } else if tag == "event_icon_resolved"@ {
            Some(ResponseKind::EventIconResolved)
        } else if tag == "match_in_progress_status"@ {
            Some(ResponseKind::MatchInProgressStatus)
        } else if tag == "match_timeline"@ {
            Some(ResponseKind::MatchTimeline)
        } else if tag == "write_match_data"@ {
            Some(ResponseKind::WriteMatchData)
        } else if tag == "sample_match_data"@ {
            Some(ResponseKind::SampleMatchData)
        } else {
            None
        }
    }

    /// The name that the member `type` gives the variant.
    pub fn as_str(&self) -> (r: &'static str)
        ensures
            r@ == self.tag(),
    {
        match self {
            ResponseKind::Initialized => "initialized",
            ResponseKind::RunningStatus => "running_status",
            ResponseKind::GameStatus => "game_status",
            ResponseKind::Events => "events",
            ResponseKind::LiveData => "live_data",
            ResponseKind::SessionStarted => "session_started",
            ResponseKind::SessionEnded => "session_ended",
            ResponseKind::Error => "error",
            ResponseKind::ShutdownComplete => "shutdown_complete",
            ResponseKind::EventIconResolved => "event_icon_resolved",
            ResponseKind::MatchInProgressStatus => "match_in_progress_status",
            ResponseKind::MatchTimeline => "match_timeline",
            ResponseKind::WriteMatchData => "write_match_data",
            ResponseKind::SampleMatchData => "sample_match_data",
        }
    }

    /// The variant that `tag` names.
    pub fn from_tag(tag: &str) -> (r: Option<ResponseKind>)
        ensures
            r == ResponseKind::named(tag@),
    {
        if str_eq(tag, "initialized") {
            Some(ResponseKind::Initialized)
        } else if str_eq(tag, "running_status") {
            Some(ResponseKind::RunningStatus)
        } else if str_eq(tag, "game_status") {
            Some(ResponseKind::GameStatus)
        } else if str_eq(tag, "events") {
            Some(ResponseKind::Events)
        } else if str_eq(tag, "live_data") {
            Some(ResponseKind::LiveData)
        } else if str_eq(tag, "session_started") {
            Some(ResponseKind::SessionStarted)
        } else if str_eq(tag, "session_ended") {
            Some(ResponseKind::SessionEnded)
        } else if str_eq(tag, "error") {
            Some(ResponseKind::Error)
        } else if str_eq(tag, "shutdown_complete") {
            Some(ResponseKind::ShutdownComplete)
        } else if str_eq(tag, "event_icon_resolved") {
            Some(ResponseKind::EventIconResolved)
        } else if str_eq(tag, "match_in_progress_status") {
            Some(ResponseKind::MatchInProgressStatus)
        } else if str_eq(tag, "match_timeline") {
            Some(ResponseKind::MatchTimeline)
        } else if str_eq(tag, "write_match_data") {
            Some(ResponseKind::WriteMatchData)
        } else if str_eq(tag, "sample_match_data") {
            Some(ResponseKind::SampleMatchData)
        } else {
            None
        }
    }
}

/// Each variant is the one that its own name names.
pub proof fn lemma_response_kind_named(kind: ResponseKind)
    ensures
        ResponseKind::named(kind.tag()) == Some(kind),
{
    reveal_strlit("initialized");
    reveal_strlit("running_status");
    reveal_strlit("game_status");
    reveal_strlit("events");
    reveal_strlit("live_data");
    reveal_strlit("session_started");
    reveal_strlit("session_ended");
    reveal_strlit("error");
    reveal_strlit("shutdown_complete");
    reveal_strlit("event_icon_resolved");
    reveal_strlit("match_in_progress_status");
    reveal_strlit("match_timeline");
    reveal_strlit("write_match_data");
    reveal_strlit("sample_match_data");
    assert("initialized"@.len() == 11 && "initialized"@[0] == 'i');
    assert("running_status"@.len() == 14 && "running_status"@[0] == 'r');
    assert("game_status"@.len() == 11 && "game_status"@[0] == 'g');
    assert("events"@.len() == 6);
    assert("live_data"@.len() == 9);
    assert("session_started"@.len() == 15);
    assert("session_ended"@.len() == 13);
    assert("error"@.len() == 5);
    assert("shutdown_complete"@.len() == 17 && "shutdown_complete"@[1] == 'h');
    assert("event_icon_resolved"@.len() == 19);
    assert("match_in_progress_status"@.len() == 24);
    assert("match_timeline"@.len() == 14 && "match_timeline"@[0] == 'm');
    assert("write_match_data"@.len() == 16);
    assert("sample_match_data"@.len() == 17 && "sample_match_data"@[1] == 'a');
}

impl ResponseView {
    /// The variant of the response.
    pub open spec fn kind(self) -> ResponseKind {
        match self {
            ResponseView::Initialized { .. } => ResponseKind::Initialized,
            ResponseView::RunningStatus { .. } => ResponseKind::RunningStatus,
            ResponseView::GameStatus { .. } => ResponseKind::GameStatus,
            ResponseView::Events { .. } => ResponseKind::Events,
            ResponseView::LiveData { .. } => ResponseKind::LiveData,
            ResponseView::SessionStarted { .. } => ResponseKind::SessionStarted,
            ResponseView::SessionEnded { .. } => ResponseKind::SessionEnded,
            ResponseView::Error { .. } => ResponseKind::Error,
            ResponseView::ShutdownComplete { .. } => ResponseKind::ShutdownComplete,
            ResponseView::EventIconResolved { .. } => ResponseKind::EventIconResolved,
            ResponseView::MatchInProgressStatus { .. } => ResponseKind::MatchInProgressStatus,
            ResponseView::MatchTimeline { .. } => ResponseKind::MatchTimeline,
            ResponseView::WriteMatchData { .. } => ResponseKind::WriteMatchData,
            ResponseView::SampleMatchData { .. } => ResponseKind::SampleMatchData,
        }
    }

    /// Whether the response is one that its wire form tells apart from every
    /// other: no optional payload is a present `null`, which is read back as
    /// an absent one, and no stat name occurs twice in a message it carries.
    pub open spec fn well_formed(self) -> bool {
        match self {
            ResponseView::LiveData { data, .. } => data != Some(JsonView::Null),
            ResponseView::SessionStarted { context, .. } => context != Some(JsonView::Null),
            ResponseView::SessionEnded { match_data, .. } => match_data != Some(JsonView::Null),
            ResponseView::MatchInProgressStatus { set_complete: Some(message), .. } =>
                message.well_formed(),
            ResponseView::WriteMatchData { message } => message.well_formed(),
            _ => true,
        }
    }
}

/// The JSON value for a match data message that may be absent.
pub open spec fn optional_message_json(message: Option<MatchDataMessageView>) -> Option<JsonView> {
    match message {
        Some(m) => Some(encode_match_data_message(m)),
        None => None,
    }
}

/// The object that stands for a response.
pub open spec fn encode_response(r: ResponseView) -> JsonView {
    let start = head(r.kind().tag(), r.request_id());
    match r {
        ResponseView::Initialized { game_id, slug, protocol_version, .. } => JsonView::Object(
            start.push(("game_id"@, signed_json(game_id as i64))).push(
                ("slug"@, text_json(slug)),
            ).push(("protocol_version"@, unsigned_json(protocol_version as u64))),
        ),
        ResponseView::RunningStatus { running, .. } => JsonView::Object(
            start.push(("running"@, JsonView::Bool(running))),
        ),
        ResponseView::GameStatus { connected, connection_status, game_phase, is_in_game, .. } =>
            JsonView::Object(
            push_optional(
                start.push(("connected"@, JsonView::Bool(connected))).push(
                    ("connection_status"@, text_json(connection_status)),
                ),
                "game_phase"@,
                optional_text_json(game_phase),
            ).push(("is_in_game"@, JsonView::Bool(is_in_game))),
        ),
        ResponseView::Events { events, .. } => JsonView::Object(
            start.push(("events"@, JsonView::Array(encode_events(events)))),
        ),
        ResponseView::LiveData { data, .. } => JsonView::Object(push_optional(start, "data"@, data)),
        ResponseView::SessionStarted { context, .. } => JsonView::Object(
            push_optional(start, "context"@, context),
        ),
        ResponseView::SessionEnded { match_data, .. } => JsonView::Object(
            push_optional(start, "match_data"@, match_data),
        ),
        ResponseView::Error { message, code, .. } => JsonView::Object(
            push_optional(
                start.push(("message"@, text_json(message))),
                "code"@,
                optional_text_json(code),
            ),
        ),
        ResponseView::ShutdownComplete { .. } => JsonView::Object(start),
        ResponseView::EventIconResolved { event_key, icon_url, .. } => JsonView::Object(
            push_optional(
                start.push(("event_key"@, text_json(event_key))),
                "icon_url"@,
                optional_text_json(icon_url),
            ),
        ),
        ResponseView::MatchInProgressStatus { still_playing, set_complete, .. } =>
            JsonView::Object(
            push_optional(
                start.push(("still_playing"@, JsonView::Bool(still_playing))),
                "set_complete"@,
                optional_message_json(set_complete),
            ),
        ),
        ResponseView::MatchTimeline { found, entries, .. } => JsonView::Object(
            start.push(("found"@, JsonView::Bool(found))).push(
                ("entries"@, JsonView::Array(encode_entries(entries))),
            ),
        ),
        ResponseView::WriteMatchData { message } => JsonView::Object(
            Members::empty().push(("type"@, text_json("write_match_data"@))).push(
                ("message"@, encode_match_data_message(message)),
            ),
        ),
        ResponseView::SampleMatchData { subpack, data, .. } => JsonView::Object(
            start.push(("subpack"@, unsigned_json(subpack as u64))).push(("data"@, data)),
        ),
    }
}

/// An optional member read as a match data message.
pub open spec fn optional_message_field(m: Members, key: Seq<char>) -> Result<
    Option<MatchDataMessageView>,
    DecodeErrorView,
> {
    match optional(m, key) {
        Some(j) => match decode_match_data_message(j) {
            Ok(message) => Ok(Some(message)),
            Err(e) => Err(e),
        },
        None => Ok(None),
    }
}

/// The `Initialized` response that the members of an object stand for.
pub open spec fn initialized_of(request_id: Seq<char>, m: Members) -> Result<
    ResponseView,
    DecodeErrorView,
> {
    match i32_field(m, "game_id"@) {
        Err(e) => Err(e),
        Ok(game_id) => match text_field(m, "slug"@) {
            Err(e) => Err(e),
            Ok(slug) => match u32_field(m, "protocol_version"@) {
                Err(e) => Err(e),
                Ok(protocol_version) => Ok(
                    ResponseView::Initialized { request_id, game_id, slug, protocol_version },
                ),
            },
        },
    }
}

/// The `GameStatus` response that the members of an object stand for.
pub open spec fn game_status_of(request_id: Seq<char>, m: Members) -> Result<
    ResponseView,
    DecodeErrorView,
> {
    match bool_field(m, "connected"@) {
        Err(e) => Err(e),
        Ok(connected) => match text_field(m, "connection_status"@) {
            Err(e) => Err(e),
            Ok(connection_status) => match optional_text_field(m, "game_phase"@) {
                Err(e) => Err(e),
                Ok(game_phase) => match bool_field(m, "is_in_game"@) {
                    Err(e) => Err(e),
                    Ok(is_in_game) => Ok(
                        ResponseView::GameStatus {
                            request_id,
                            connected,
                            connection_status,
                            game_phase,
                            is_in_game,
                        },
                    ),
                },
            },
        },
    }
}

/// The `Events` response that the members of an object stand for.
pub open spec fn events_of(request_id: Seq<char>, m: Members) -> Result<
    ResponseView,
    DecodeErrorView,
> {
    match array_field(m, "events"@) {
        Err(e) => Err(e),
        Ok(items) => match decode_events(items) {
            Err(e) => Err(e),
            Ok(events) => Ok(ResponseView::Events { request_id, events }),
        },
    }
}

/// The `Error` response that the members of an object stand for.
pub open spec fn error_of(request_id: Seq<char>, m: Members) -> Result<
    ResponseView,
    DecodeErrorView,
> {
    match text_field(m, "message"@) {
        Err(e) => Err(e),
        Ok(message) => match optional_text_field(m, "code"@) {
            Err(e) => Err(e),
            Ok(code) => Ok(ResponseView::Error { request_id, message, code }),
        },
    }
}

/// The `EventIconResolved` response that the members of an object stand
/// for.
pub open spec fn event_icon_resolved_of(request_id: Seq<char>, m: Members) -> Result<
    ResponseView,
    DecodeErrorView,
> {
    match text_field(m, "event_key"@) {
        Err(e) => Err(e),
        Ok(event_key) => match optional_text_field(m, "icon_url"@) {
            Err(e) => Err(e),
            Ok(icon_url) => Ok(ResponseView::EventIconResolved { request_id, event_key, icon_url }),
        },
    }
}

/// The `MatchInProgressStatus` response that the members of an object stand
/// for.
pub open spec fn match_in_progress_status_of(request_id: Seq<char>, m: Members) -> Result<
    ResponseView,
    DecodeErrorView,
> {
    match bool_field(m, "still_playing"@) {
        Err(e) => Err(e),
        Ok(still_playing) => match optional_message_field(m, "set_complete"@) {
            Err(e) => Err(e),
            Ok(set_complete) => Ok(
                ResponseView::MatchInProgressStatus { request_id, still_playing, set_complete },
            ),
        },
    }
}

/// The `MatchTimeline` response that the members of an object stand for.
pub open spec fn match_timeline_of(request_id: Seq<char>, m: Members) -> Result<
    ResponseView,
    DecodeErrorView,
> {
    match bool_field(m, "found"@) {
        Err(e) => Err(e),
        Ok(found) => match array_field(m, "entries"@) {
            Err(e) => Err(e),
            Ok(items) => match decode_entries(items) {
                Err(e) => Err(e),
                Ok(entries) => Ok(ResponseView::MatchTimeline { request_id, found, entries }),
            },
        },
    }
}

/// The `SampleMatchData` response that the members of an object stand for.
pub open spec fn sample_match_data_of(request_id: Seq<char>, m: Members) -> Result<
    ResponseView,
    DecodeErrorView,
> {
    match u8_field(m, "subpack"@) {
        Err(e) => Err(e),
        Ok(subpack) => match required(m, "data"@) {
            Err(e) => Err(e),
            Ok(data) => Ok(ResponseView::SampleMatchData { request_id, subpack, data }),
        },
    }
}

/// The `WriteMatchData` response that the members of an object stand for.
pub open spec fn write_match_data_of(m: Members) -> Result<ResponseView, DecodeErrorView> {
    match required(m, "message"@) {
        Err(e) => Err(e),
        Ok(j) => match decode_match_data_message(j) {
            Err(e) => Err(e),
            Ok(message) => Ok(ResponseView::WriteMatchData { message }),
        },
    }
}

/// The response of the given variant and `request_id` that the members of
/// an object stand for. `WriteMatchData` has no `request_id`, and none is
/// looked at for it.
pub open spec fn reply_of(kind: ResponseKind, request_id: Seq<char>, m: Members) -> Result<
    ResponseView,
    DecodeErrorView,
> {
    match kind {
        ResponseKind::Initialized => initialized_of(request_id, m),
        ResponseKind::RunningStatus => match bool_field(m, "running"@) {
            Err(e) => Err(e),
            Ok(running) => Ok(ResponseView::RunningStatus { request_id, running }),
        },
        ResponseKind::GameStatus => game_status_of(request_id, m),
        ResponseKind::Events => events_of(request_id, m),
        ResponseKind::LiveData => Ok(
            ResponseView::LiveData { request_id, data: optional(m, "data"@) },
        ),
        ResponseKind::SessionStarted => Ok(
            ResponseView::SessionStarted { request_id, context: optional(m, "context"@) },
        ),
        ResponseKind::SessionEnded => Ok(
            ResponseView::SessionEnded { request_id, match_data: optional(m, "match_data"@) },
        ),
        ResponseKind::Error => error_of(request_id, m),
        ResponseKind::ShutdownComplete => Ok(ResponseView::ShutdownComplete { request_id }),
        ResponseKind::EventIconResolved => event_icon_resolved_of(request_id, m),
        ResponseKind::MatchInProgressStatus => match_in_progress_status_of(request_id, m),
        ResponseKind::MatchTimeline => match_timeline_of(request_id, m),
        ResponseKind::WriteMatchData => write_match_data_of(m),
        ResponseKind::SampleMatchData => sample_match_data_of(request_id, m),
    }
}

/// The response that the members of an object stand for: the member `type`
/// names the variant; `WriteMatchData` carries its message, every other
/// variant its `request_id` and then its own fields.
pub open spec fn response_of_members(m: Members) -> Result<ResponseView, DecodeErrorView> {
    match text_field(m, "type"@) {
        Err(e) => Err(e),
        Ok(tag) => match ResponseKind::named(tag) {
            None => Err(DecodeErrorView::UnknownType(tag)),
            Some(ResponseKind::WriteMatchData) => write_match_data_of(m),
            Some(kind) => match text_field(m, "request_id"@) {
                Err(e) => Err(e),
                Ok(request_id) => reply_of(kind, request_id, m),
            },
        },
    }
}

/// The response that a JSON value stands for.
pub open spec fn decode_response(j: JsonView) -> Result<ResponseView, DecodeErrorView> {
    match object_members(j) {
        Ok(m) => response_of_members(m),
        Err(e) => Err(e),
    }
}

/// The member names of `Initialized` differ from each other.
pub proof fn lemma_initialized_response_names()
    ensures
        "type"@ != "request_id"@,
        "type"@ != "game_id"@,
        "type"@ != "slug"@,
        "type"@ != "protocol_version"@,
        "request_id"@ != "game_id"@,
        "request_id"@ != "slug"@,
        "request_id"@ != "protocol_version"@,
        "game_id"@ != "slug"@,
        "game_id"@ != "protocol_version"@,
        "slug"@ != "protocol_version"@,
{
    reveal_strlit("type");
    reveal_strlit("request_id");
    reveal_strlit("game_id");
    reveal_strlit("slug");
    reveal_strlit("protocol_version");
    assert("type"@.len() == 4 && "type"@[0] == 't');
    assert("request_id"@.len() == 10 && "request_id"@[0] == 'r');
    assert("game_id"@.len() == 7 && "game_id"@[0] == 'g');
    assert("slug"@.len() == 4 && "slug"@[0] == 's');
    assert("protocol_version"@.len() == 16 && "protocol_version"@[0] == 'p');
}

/// A well-formed `Initialized` response is read back from the object that stands
/// for it.
pub proof fn lemma_initialized_response_round_trip(r: ResponseView)
    requires
        r is Initialized,
        r.well_formed(),
    ensures
        decode_response(encode_response(r)) == read_as(r),
{
    broadcast use group_lookup;

    lemma_response_kind_named(r.kind());
    lemma_initialized_response_names();
}

/// The member names of `RunningStatus` differ from each other.
pub proof fn lemma_running_status_response_names()
    ensures
        "type"@ != "request_id"@,
        "type"@ != "running"@,
        "request_id"@ != "running"@,
{
    reveal_strlit("type");
    reveal_strlit("request_id");
    reveal_strlit("running");
    assert("type"@.len() == 4 && "type"@[0] == 't');
    assert("request_id"@.len() == 10 && "request_id"@[0] == 'r');
    assert("running"@.len() == 7 && "running"@[0] == 'r');
}

/// A well-formed `RunningStatus` response is read back from the object that stands
/// for it.
pub proof fn lemma_running_status_response_round_trip(r: ResponseView)
    requires
        r is RunningStatus,
        r.well_formed(),
    ensures
        decode_response(encode_response(r)) == read_as(r),
{
    broadcast use group_lookup;

    lemma_response_kind_named(r.kind());
    lemma_running_status_response_names();
}

/// The member names of `GameStatus` differ from each other.
pub proof fn lemma_game_status_response_names()
    ensures
        "type"@ != "request_id"@,
        "type"@ != "connected"@,
        "type"@ != "connection_status"@,
        "type"@ != "game_phase"@,
        "type"@ != "is_in_game"@,
        "request_id"@ != "connected"@,
        "request_id"@ != "connection_status"@,
        "request_id"@ != "game_phase"@,
        "request_id"@ != "is_in_game"@,
        "connected"@ != "connection_status"@,
        "connected"@ != "game_phase"@,
        "connected"@ != "is_in_game"@,
        "connection_status"@ != "game_phase"@,
        "connection_status"@ != "is_in_game"@,
        "game_phase"@ != "is_in_game"@,
{
    reveal_strlit("type");
    reveal_strlit("request_id");
    reveal_strlit("connected");
    reveal_strlit("connection_status");
    reveal_strlit("game_phase");
    reveal_strlit("is_in_game");
    assert("type"@.len() == 4 && "type"@[0] == 't');
    assert("request_id"@.len() == 10 && "request_id"@[0] == 'r');
    assert("connected"@.len() == 9 && "connected"@[0] == 'c');
    assert("connection_status"@.len() == 17 && "connection_status"@[0] == 'c');
    assert("game_phase"@.len() == 10 && "game_phase"@[0] == 'g');
    assert("is_in_game"@.len() == 10 && "is_in_game"@[0] == 'i');
}

/// A well-formed `GameStatus` response is read back from the object that stands
/// for it.
pub proof fn lemma_game_status_response_round_trip(r: ResponseView)
    requires
        r is GameStatus,
        r.well_formed(),
    ensures
        decode_response(encode_response(r)) == read_as(r),
{
    broadcast use group_lookup;

    lemma_response_kind_named(r.kind());
    lemma_game_status_response_names();
}

/// The member names of `Events` differ from each other.
pub proof fn lemma_events_response_names()
    ensures
        "type"@ != "request_id"@,
        "type"@ != "events"@,
        "request_id"@ != "events"@,
{
    reveal_strlit("type");
    reveal_strlit("request_id");
    reveal_strlit("events");
    assert("type"@.len() == 4 && "type"@[0] == 't');
    assert("request_id"@.len() == 10 && "request_id"@[0] == 'r');
    assert("events"@.len() == 6 && "events"@[0] == 'e');
}

/// A well-formed `Events` response is read back from the object that stands
/// for it.
pub proof fn lemma_events_response_round_trip(r: ResponseView)
    requires
        r is Events,
        r.well_formed(),
    ensures
        decode_response(encode_response(r)) == read_as(r),
{
    broadcast use group_lookup;

    lemma_response_kind_named(r.kind());
    lemma_events_response_names();
    lemma_events_round_trip(r->Events_events);
}

/// The member names of `LiveData` differ from each other.
pub proof fn lemma_live_data_response_names()
    ensures
        "type"@ != "request_id"@,
        "type"@ != "data"@,
        "request_id"@ != "data"@,
{
    reveal_strlit("type");
    reveal_strlit("request_id");
    reveal_strlit("data");
    assert("type"@.len() == 4 && "type"@[0] == 't');
    assert("request_id"@.len() == 10 && "request_id"@[0] == 'r');
    assert("data"@.len() == 4 && "data"@[0] == 'd');
}

/// A well-formed `LiveData` response is read back from the object that stands
/// for it.
pub proof fn lemma_live_data_response_round_trip(r: ResponseView)
    requires
        r is LiveData,
        r.well_formed(),
    ensures
        decode_response(encode_response(r)) == read_as(r),
{
    broadcast use group_lookup;

    lemma_response_kind_named(r.kind());
    lemma_live_data_response_names();
}

/// The member names of `SessionStarted` differ from each other.
pub proof fn lemma_session_started_response_names()
    ensures
        "type"@ != "request_id"@,
        "type"@ != "context"@,
        "request_id"@ != "context"@,
{
    reveal_strlit("type");
    reveal_strlit("request_id");
    reveal_strlit("context");
    assert("type"@.len() == 4 && "type"@[0] == 't');
    assert("request_id"@.len() == 10 && "request_id"@[0] == 'r');
    assert("context"@.len() == 7 && "context"@[0] == 'c');
}

/// A well-formed `SessionStarted` response is read back from the object that stands
/// for it.
pub proof fn lemma_session_started_response_round_trip(r: ResponseView)
    requires
        r is SessionStarted,
        r.well_formed(),
    ensures
        decode_response(encode_response(r)) == read_as(r),
{
    broadcast use group_lookup;

    lemma_response_kind_named(r.kind());
    lemma_session_started_response_names();
}

/// The member names of `SessionEnded` differ from each other.
pub proof fn lemma_session_ended_response_names()
    ensures
        "type"@ != "request_id"@,
        "type"@ != "match_data"@,
        "request_id"@ != "match_data"@,
{
    reveal_strlit("type");
    reveal_strlit("request_id");
    reveal_strlit("match_data");
    assert("type"@.len() == 4 && "type"@[0] == 't');
    assert("request_id"@.len() == 10 && "request_id"@[0] == 'r');
    assert("match_data"@.len() == 10 && "match_data"@[0] == 'm');
}

/// A well-formed `SessionEnded` response is read back from the object that stands
/// for it.
pub proof fn lemma_session_ended_response_round_trip(r: ResponseView)
    requires
        r is SessionEnded,
        r.well_formed(),
    ensures
        decode_response(encode_response(r)) == read_as(r),
{
    broadcast use group_lookup;

    lemma_response_kind_named(r.kind());
    lemma_session_ended_response_names();
}

/// The member names of `Error` differ from each other.
pub proof fn lemma_error_response_names()
    ensures
        "type"@ != "request_id"@,
        "type"@ != "message"@,
        "type"@ != "code"@,
        "request_id"@ != "message"@,
        "request_id"@ != "code"@,
        "message"@ != "code"@,
{
    reveal_strlit("type");
    reveal_strlit("request_id");
    reveal_strlit("message");
    reveal_strlit("code");
    assert("type"@.len() == 4 && "type"@[0] == 't');
    assert("request_id"@.len() == 10 && "request_id"@[0] == 'r');
    assert("message"@.len() == 7 && "message"@[0] == 'm');
    assert("code"@.len() == 4 && "code"@[0] == 'c');
}

/// A well-formed `Error` response is read back from the object that stands
/// for it.
pub proof fn lemma_error_response_round_trip(r: ResponseView)
    requires
        r is Error,
        r.well_formed(),
    ensures
        decode_response(encode_response(r)) == read_as(r),
{
    broadcast use group_lookup;

    lemma_response_kind_named(r.kind());
    lemma_error_response_names();
}

/// The member names of `ShutdownComplete` differ from each other.
pub proof fn lemma_shutdown_complete_response_names()
    ensures
        "type"@ != "request_id"@,
{
    reveal_strlit("type");
    reveal_strlit("request_id");
    assert("type"@.len() == 4 && "type"@[0] == 't');
    assert("request_id"@.len() == 10 && "request_id"@[0] == 'r');
}

/// A well-formed `ShutdownComplete` response is read back from the object that stands
/// for it.
pub proof fn lemma_shutdown_complete_response_round_trip(r: ResponseView)
    requires
        r is ShutdownComplete,
        r.well_formed(),
    ensures
        decode_response(encode_response(r)) == read_as(r),
{
    broadcast use group_lookup;

    lemma_response_kind_named(r.kind());
    lemma_shutdown_complete_response_names();
}

/// The member names of `EventIconResolved` differ from each other.
pub proof fn lemma_event_icon_resolved_response_names()
    ensures
        "type"@ != "request_id"@,
        "type"@ != "event_key"@,
        "type"@ != "icon_url"@,
        "request_id"@ != "event_key"@,
        "request_id"@ != "icon_url"@,
        "event_key"@ != "icon_url"@,
{
    reveal_strlit("type");
    reveal_strlit("request_id");
    reveal_strlit("event_key");
    reveal_strlit("icon_url");
    assert("type"@.len() == 4 && "type"@[0] == 't');
    assert("request_id"@.len() == 10 && "request_id"@[0] == 'r');
    assert("event_key"@.len() == 9 && "event_key"@[0] == 'e');
    assert("icon_url"@.len() == 8 && "icon_url"@[0] == 'i');
}

/// A well-formed `EventIconResolved` response is read back from the object that stands
/// for it.
pub proof fn lemma_event_icon_resolved_response_round_trip(r: ResponseView)
    requires
        r is EventIconResolved,
        r.well_formed(),
    ensures
        decode_response(encode_response(r)) == read_as(r),
{
    broadcast use group_lookup;

    lemma_response_kind_named(r.kind());
    lemma_event_icon_resolved_response_names();
}

/// The member names of `MatchInProgressStatus` differ from each other.
pub proof fn lemma_match_in_progress_status_response_names()
    ensures
        "type"@ != "request_id"@,
        "type"@ != "still_playing"@,
        "type"@ != "set_complete"@,
        "request_id"@ != "still_playing"@,
        "request_id"@ != "set_complete"@,
        "still_playing"@ != "set_complete"@,
{
    reveal_strlit("type");
    reveal_strlit("request_id");
    reveal_strlit("still_playing");
    reveal_strlit("set_complete");
    assert("type"@.len() == 4 && "type"@[0] == 't');
    assert("request_id"@.len() == 10 && "request_id"@[0] == 'r');
    assert("still_playing"@.len() == 13 && "still_playing"@[0] == 's');
    assert("set_complete"@.len() == 12 && "set_complete"@[0] == 's');
}

/// A well-formed `MatchInProgressStatus` response is read back from the object that stands
/// for it.
pub proof fn lemma_match_in_progress_status_response_round_trip(r: ResponseView)
    requires
        r is MatchInProgressStatus,
        r.well_formed(),
    ensures
        decode_response(encode_response(r)) == read_as(r),
{
    broadcast use group_lookup;

    lemma_response_kind_named(r.kind());
    lemma_match_in_progress_status_response_names();
    if let Some(message) = r->MatchInProgressStatus_set_complete {
        lemma_match_data_message_round_trip(message);
        assert(encode_match_data_message(message) is Object);
    }
}

/// The member names of `MatchTimeline` differ from each other.
pub proof fn lemma_match_timeline_response_names()
    ensures
        "type"@ != "request_id"@,
        "type"@ != "found"@,
        "type"@ != "entries"@,
        "request_id"@ != "found"@,
        "request_id"@ != "entries"@,
        "found"@ != "entries"@,
{
    reveal_strlit("type");
    reveal_strlit("request_id");
    reveal_strlit("found");
    reveal_strlit("entries");
    assert("type"@.len() == 4 && "type"@[0] == 't');
    assert("request_id"@.len() == 10 && "request_id"@[0] == 'r');
    assert("found"@.len() == 5 && "found"@[0] == 'f');
    assert("entries"@.len() == 7 && "entries"@[0] == 'e');
}

/// A well-formed `MatchTimeline` response is read back from the object that stands
/// for it.
pub proof fn lemma_match_timeline_response_round_trip(r: ResponseView)
    requires
        r is MatchTimeline,
        r.well_formed(),
    ensures
        decode_response(encode_response(r)) == read_as(r),
{
    broadcast use group_lookup;

    lemma_response_kind_named(r.kind());
    lemma_match_timeline_response_names();
    lemma_entries_round_trip(r->MatchTimeline_entries);
}

/// The member names of `WriteMatchData` differ from each other.
pub proof fn lemma_write_match_data_response_names()
    ensures
        "type"@ != "message"@,
{
    reveal_strlit("type");
    reveal_strlit("message");
    assert("type"@.len() == 4 && "type"@[0] == 't');
    assert("message"@.len() == 7 && "message"@[0] == 'm');
}

/// A well-formed `WriteMatchData` response is read back from the object that stands
/// for it.
pub proof fn lemma_write_match_data_response_round_trip(r: ResponseView)
    requires
        r is WriteMatchData,
        r.well_formed(),
    ensures
        decode_response(encode_response(r)) == read_as(r),
{
    broadcast use group_lookup;

    lemma_response_kind_named(r.kind());
    lemma_write_match_data_response_names();
    lemma_match_data_message_round_trip(r->WriteMatchData_message);
}

/// The member names of `SampleMatchData` differ from each other.
pub proof fn lemma_sample_match_data_response_names()
    ensures
        "type"@ != "request_id"@,
        "type"@ != "subpack"@,
        "type"@ != "data"@,
        "request_id"@ != "subpack"@,
        "request_id"@ != "data"@,
        "subpack"@ != "data"@,
{
    reveal_strlit("type");
    reveal_strlit("request_id");
    reveal_strlit("subpack");
    reveal_strlit("data");
    assert("type"@.len() == 4 && "type"@[0] == 't');
    assert("request_id"@.len() == 10 && "request_id"@[0] == 'r');
    assert("subpack"@.len() == 7 && "subpack"@[0] == 's');
    assert("data"@.len() == 4 && "data"@[0] == 'd');
}

/// A well-formed `SampleMatchData` response is read back from the object that stands
/// for it.
pub proof fn lemma_sample_match_data_response_round_trip(r: ResponseView)
    requires
        r is SampleMatchData,
        r.well_formed(),
    ensures
        decode_response(encode_response(r)) == read_as(r),
{
    broadcast use group_lookup;

    lemma_response_kind_named(r.kind());
    lemma_sample_match_data_response_names();
}

/// A well-formed response is read back from the object that stands for it.
pub proof fn lemma_response_round_trip(r: ResponseView)
    requires
        r.well_formed(),
    ensures
        decode_response(encode_response(r)) == read_as(r),
{
    match r {
        ResponseView::Initialized { .. } => lemma_initialized_response_round_trip(r),
        ResponseView::RunningStatus { .. } => lemma_running_status_response_round_trip(r),
        ResponseView::GameStatus { .. } => lemma_game_status_response_round_trip(r),
        ResponseView::Events { .. } => lemma_events_response_round_trip(r),
        ResponseView::LiveData { .. } => lemma_live_data_response_round_trip(r),
        ResponseView::SessionStarted { .. } => lemma_session_started_response_round_trip(r),
        ResponseView::SessionEnded { .. } => lemma_session_ended_response_round_trip(r),
        ResponseView::Error { .. } => lemma_error_response_round_trip(r),
        ResponseView::ShutdownComplete { .. } => lemma_shutdown_complete_response_round_trip(r),
        ResponseView::EventIconResolved { .. } => lemma_event_icon_resolved_response_round_trip(r),
        ResponseView::MatchInProgressStatus { .. } => lemma_match_in_progress_status_response_round_trip(r),
        ResponseView::MatchTimeline { .. } => lemma_match_timeline_response_round_trip(r),
        ResponseView::WriteMatchData { .. } => lemma_write_match_data_response_round_trip(r),
        ResponseView::SampleMatchData { .. } => lemma_sample_match_data_response_round_trip(r),
    }
}

/// The JSON value for a match data message that may be absent.
pub fn json_of_optional_message(message: &Option<MatchDataMessage>) -> (j: Option<Json>)
    ensures
        option_view(j) == optional_message_json(option_view(*message)),
{
    match message {
        Some(m) => Some(m.to_json()),
        None => None,
    }
}

/// A copy of a JSON value that may be absent.
pub fn clone_optional_json(value: &Option<Json>) -> (j: Option<Json>)
    ensures
        option_view(j) == option_view(*value),
{
    match value {
        Some(v) => Some(v.clone()),
        None => None,
    }
}

/// A copy of the value of a member that may be left out.
pub fn read_optional_json_field(m: &Vec<(String, Json)>, key: &str) -> (j: Option<Json>)
    ensures
        option_view(j) == optional(members_view(m@), key@),
{
    match get_optional(m, key) {
        Some(v) => Some(v.clone()),
        None => None,
    }
}

/// An optional member read as a match data message.
pub fn read_optional_message_field(m: &Vec<(String, Json)>, key: &str) -> (r: Result<
    Option<MatchDataMessage>,
    DecodeError,
>)
    ensures
        decoded_option_view(r) == optional_message_field(members_view(m@), key@),
{
    match get_optional(m, key) {
        Some(j) => match MatchDataMessage::from_json(j) {
            Ok(message) => Ok(Some(message)),
            Err(e) => Err(e),
        },
        None => Ok(None),
    }
}

impl GamepackResponse {
    /// The variant of the response.
    pub fn kind(&self) -> (k: ResponseKind)
        ensures
            k == self@.kind(),
    {
        match self {
            GamepackResponse::Initialized { .. } => ResponseKind::Initialized,
            GamepackResponse::RunningStatus { .. } => ResponseKind::RunningStatus,
            GamepackResponse::GameStatus { .. } => ResponseKind::GameStatus,
            GamepackResponse::Events { .. } => ResponseKind::Events,
            GamepackResponse::LiveData { .. } => ResponseKind::LiveData,
            GamepackResponse::SessionStarted { .. } => ResponseKind::SessionStarted,
            GamepackResponse::SessionEnded { .. } => ResponseKind::SessionEnded,
            GamepackResponse::Error { .. } => ResponseKind::Error,
            GamepackResponse::ShutdownComplete { .. } => ResponseKind::ShutdownComplete,
            GamepackResponse::EventIconResolved { .. } => ResponseKind::EventIconResolved,
            GamepackResponse::MatchInProgressStatus { .. } => ResponseKind::MatchInProgressStatus,
            GamepackResponse::MatchTimeline { .. } => ResponseKind::MatchTimeline,
            GamepackResponse::WriteMatchData { .. } => ResponseKind::WriteMatchData,
            GamepackResponse::SampleMatchData { .. } => ResponseKind::SampleMatchData,
        }
    }

    /// The object that stands for this response.
    pub fn to_json(&self) -> (j: Json)
        ensures
            j@ == encode_response(self@),
    {
        let mut members: Vec<(String, Json)> = Vec::new();
        assert(members_view(members@) =~= Seq::empty());
        push_member(&mut members, "type", Json::String(self.kind().as_str().to_owned()));
        if let GamepackResponse::WriteMatchData { message } = self {
            push_member(&mut members, "message", message.to_json());
            proof {
                lemma_object_view(members);
            }
            return Json::Object(members);
        }
        push_member(&mut members, "request_id", Json::String(self.request_id().to_owned()));
        match self {
            GamepackResponse::Initialized { game_id, slug, protocol_version, .. } => {
                push_member(&mut members, "game_id", json_of_signed(*game_id as i64));
                push_member(&mut members, "slug", json_of_text(slug));
                push_member(
                    &mut members,
                    "protocol_version",
                    json_of_unsigned(*protocol_version as u64),
                );
            },
            GamepackResponse::RunningStatus { running, .. } => {
                push_member(&mut members, "running", Json::Bool(*running));
            },
            GamepackResponse::GameStatus {
                connected,
                connection_status,
                game_phase,
                is_in_game,
                ..
            } => {
                push_member(&mut members, "connected", Json::Bool(*connected));
                push_member(&mut members, "connection_status", json_of_text(connection_status));
                push_optional_member(&mut members, "game_phase", json_of_optional_text(game_phase));
                push_member(&mut members, "is_in_game", Json::Bool(*is_in_game));
            },
            GamepackResponse::Events { events, .. } => {
                push_member(&mut members, "events", events_to_json(events));
            },
            GamepackResponse::LiveData { data, .. } => {
                push_optional_member(&mut members, "data", clone_optional_json(data));
            },
            GamepackResponse::SessionStarted { context, .. } => {
                push_optional_member(&mut members, "context", clone_optional_json(context));
            },
            GamepackResponse::SessionEnded { match_data, .. } => {
                push_optional_member(&mut members, "match_data", clone_optional_json(match_data));
            },
            GamepackResponse::Error { message, code, .. } => {
                push_member(&mut members, "message", json_of_text(message));
                push_optional_member(&mut members, "code", json_of_optional_text(code));
            },
            GamepackResponse::ShutdownComplete { .. } => {},
            GamepackResponse::EventIconResolved { event_key, icon_url, .. } => {
                push_member(&mut members, "event_key", json_of_text(event_key));
                push_optional_member(&mut members, "icon_url", json_of_optional_text(icon_url));
            },
            GamepackResponse::MatchInProgressStatus { still_playing, set_complete, .. } => {
                push_member(&mut members, "still_playing", Json::Bool(*still_playing));
                push_optional_member(
                    &mut members,
                    "set_complete",
                    json_of_optional_message(set_complete),
                );
            },
            GamepackResponse::MatchTimeline { found, entries, .. } => {
                push_member(&mut members, "found", Json::Bool(*found));
                push_member(&mut members, "entries", entries_to_json(entries));
            },
            GamepackResponse::WriteMatchData { .. } => {},
            GamepackResponse::SampleMatchData { subpack, data, .. } => {
                push_member(&mut members, "subpack", json_of_unsigned(*subpack as u64));
                push_member(&mut members, "data", data.clone());
            },
        }
        proof {
            lemma_object_view(members);
        }
        Json::Object(members)
    }

    /// Reads a `WriteMatchData` response from the members of its object.
    fn write_match_data_from(m: &Vec<(String, Json)>) -> (r: Result<GamepackResponse, DecodeError>)
        ensures
            decoded_view(r) == write_match_data_of(members_view(m@)),
    {
        let inner = match get_required(m, "message") {
            Ok(v) => v,
            Err(e) => return Err(e),
        };
        match MatchDataMessage::from_json(inner) {
            Ok(message) => Ok(GamepackResponse::WriteMatchData { message }),
            Err(e) => Err(e),
        }
    }

    /// Reads what a response of the given variant carries.
    fn from_parts(kind: ResponseKind, request_id: String, m: &Vec<(String, Json)>) -> (r: Result<
        GamepackResponse,
        DecodeError,
    >)
        ensures
            decoded_view(r) == reply_of(kind, request_id@, members_view(m@)),
    {
        match kind {
            ResponseKind::Initialized => {
                let game_id = match read_i32_field(m, "game_id") {
                    Ok(v) => v,
                    Err(e) => return Err(e),
                };
                let slug = match read_text_field(m, "slug") {
                    Ok(v) => v,
                    Err(e) => return Err(e),
                };
                let protocol_version = match read_u32_field(m, "protocol_version") {
                    Ok(v) => v,
                    Err(e) => return Err(e),
                };
                Ok(GamepackResponse::Initialized { request_id, game_id, slug, protocol_version })
            },
            ResponseKind::RunningStatus => match read_bool_field(m, "running") {
                Ok(running) => Ok(GamepackResponse::RunningStatus { request_id, running }),
                Err(e) => Err(e),
            },
            ResponseKind::GameStatus => {
                let connected = match read_bool_field(m, "connected") {
                    Ok(v) => v,
                    Err(e) => return Err(e),
                };
                let connection_status = match read_text_field(m, "connection_status") {
                    Ok(v) => v,
                    Err(e) => return Err(e),
                };
                let game_phase = match read_optional_text_field(m, "game_phase") {
                    Ok(v) => v,
                    Err(e) => return Err(e),
                };
                let is_in_game = match read_bool_field(m, "is_in_game") {
                    Ok(v) => v,
                    Err(e) => return Err(e),
                };
                Ok(
                    GamepackResponse::GameStatus {
                        request_id,
                        connected,
                        connection_status,
                        game_phase,
                        is_in_game,
                    },
                )
            },
            ResponseKind::Events => {
                let items = match read_array_field(m, "events") {
                    Ok(v) => v,
                    Err(e) => return Err(e),
                };
                match events_from_json(items) {
                    Ok(events) => Ok(GamepackResponse::Events { request_id, events }),
                    Err(e) => Err(e),
                }
            },
            ResponseKind::LiveData => Ok(
                GamepackResponse::LiveData { request_id, data: read_optional_json_field(m, "data") },
            ),
            ResponseKind::SessionStarted => Ok(
                GamepackResponse::SessionStarted {
                    request_id,
                    context: read_optional_json_field(m, "context"),
                },
            ),
            ResponseKind::SessionEnded => Ok(
                GamepackResponse::SessionEnded {
                    request_id,
                    match_data: read_optional_json_field(m, "match_data"),
                },
            ),
            ResponseKind::Error => {
                let message = match read_text_field(m, "message") {
                    Ok(v) => v,
                    Err(e) => return Err(e),
                };
                match read_optional_text_field(m, "code") {
                    Ok(code) => Ok(GamepackResponse::Error { request_id, message, code }),
                    Err(e) => Err(e),
                }
            },
            ResponseKind::ShutdownComplete => Ok(GamepackResponse::ShutdownComplete { request_id }),
            ResponseKind::EventIconResolved => {
                let event_key = match read_text_field(m, "event_key") {
                    Ok(v) => v,
                    Err(e) => return Err(e),
                };
                match read_optional_text_field(m, "icon_url") {
                    Ok(icon_url) => Ok(
                        GamepackResponse::EventIconResolved { request_id, event_key, icon_url },
                    ),
                    Err(e) => Err(e),
                }
            },
            ResponseKind::MatchInProgressStatus => {
                let still_playing = match read_bool_field(m, "still_playing") {
                    Ok(v) => v,
                    Err(e) => return Err(e),
                };
                match read_optional_message_field(m, "set_complete") {
                    Ok(set_complete) => Ok(
                        GamepackResponse::MatchInProgressStatus {
                            request_id,
                            still_playing,
                            set_complete,
                        },
                    ),
                    Err(e) => Err(e),
                }
            },
            ResponseKind::MatchTimeline => {
                let found = match read_bool_field(m, "found") {
                    Ok(v) => v,
                    Err(e) => return Err(e),
                };
                let items = match read_array_field(m, "entries") {
                    Ok(v) => v,
                    Err(e) => return Err(e),
                };
                match entries_from_json(items) {
                    Ok(entries) => Ok(GamepackResponse::MatchTimeline { request_id, found, entries }),
                    Err(e) => Err(e),
                }
            },
            ResponseKind::WriteMatchData => Self::write_match_data_from(m),
            ResponseKind::SampleMatchData => {
                let subpack = match read_u8_field(m, "subpack") {
                    Ok(v) => v,
                    Err(e) => return Err(e),
                };
                match get_required(m, "data") {
                    Ok(data) => Ok(
                        GamepackResponse::SampleMatchData { request_id, subpack, data: data.clone() },
                    ),
                    Err(e) => Err(e),
                }
            },
        }
    }

    /// Reads a response from the object that stands for it.
    pub fn from_json(j: &Json) -> (r: Result<GamepackResponse, DecodeError>)
        ensures
            decoded_view(r) == decode_response(j@),
    {
        let m = match members_of(j) {
            Ok(m) => m,
            Err(e) => return Err(e),
        };
        let tag = match read_text_field(m, "type") {
            Ok(v) => v,
            Err(e) => return Err(e),
        };
        let kind = match ResponseKind::from_tag(tag.as_str()) {
            Some(k) => k,
            None => return Err(DecodeError::UnknownType(tag)),
        };
        if let ResponseKind::WriteMatchData = kind {
            return Self::write_match_data_from(m);
        }
        let request_id = match read_text_field(m, "request_id") {
            Ok(v) => v,
            Err(e) => return Err(e),
        };
        Self::from_parts(kind, request_id, m)
    }
}

} // verus!
