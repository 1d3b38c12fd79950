//! The wire layout of commands.

use vstd::prelude::*;

use crate::commands::{CommandView, GamepackCommand};
use crate::json::{
    group_lookup, items_view, lemma_array_view, lemma_object_view, members_view, push_member,
    push_optional, push_optional_member, Json, JsonView, Members,
};
use crate::text::str_eq;
use crate::views::{lemma_list_view_push, list_view, option_list_view, option_view};
use crate::wire::{
    as_text, decode_list, decoded_list_view, decoded_view, encode_list, get_optional,
    get_required, json_of_text, json_of_unsigned, lemma_decode_list_fails, lemma_list_round_trip,
    members_of, object_members, optional, optional_u32_field, read_as, read_optional_u32_field,
    read_text, read_text_field, read_u8_field, required, text_field, text_json, u8_field,
    unsigned_json, DecodeError, DecodeErrorView,
};

verus! {

/// The variants of a command, without what they carry.
#[derive(Debug, Clone, Copy, PartialEq, Eq, Structural)]
pub enum CommandKind {
    Init,
    DetectRunning,
    GetStatus,
    PollEvents,
    GetLiveData,
    SessionStart,
    SessionEnd,
    Shutdown,
    ResolveEventIcon,
    IsMatchInProgress,
    GetMatchTimeline,
    GetSampleMatchData,
}

impl CommandKind {
    /// The name that the member `type` gives the variant.
    pub open spec fn tag(self) -> Seq<char> {
        match self {
            CommandKind::Init => "init"@,
            CommandKind::DetectRunning => "detect_running"@,
            CommandKind::GetStatus => "get_status"@,
            CommandKind::PollEvents => "poll_events"@,
            CommandKind::GetLiveData => "get_live_data"@,
            CommandKind::SessionStart => "session_start"@,
            CommandKind::SessionEnd => "session_end"@,
            CommandKind::Shutdown => "shutdown"@,
            CommandKind::ResolveEventIcon => "resolve_event_icon"@,
            CommandKind::IsMatchInProgress => "is_match_in_progress"@,
            CommandKind::GetMatchTimeline => "get_match_timeline"@,
            CommandKind::GetSampleMatchData => "get_sample_match_data"@,
        }
    }

    /// The variant that `tag` names.
    pub open spec fn named(tag: Seq<char>) -> Option<CommandKind> {
        if tag == "init"@ {
            Some(CommandKind::Init)
        } else if tag == "detect_running"@ {
            Some(CommandKind::DetectRunning)
        } else if tag == "get_status"@ {
            Some(CommandKind::GetStatus)
        } else if tag == "poll_events"@ {
            Some(CommandKind::PollEvents)
        } else if tag == "get_live_data"@ {
            Some(CommandKind::GetLiveData)
        } else if tag == "session_start"@ {
            Some(CommandKind::SessionStart)
        } else if tag == "session_end"@ {
            Some(CommandKind::SessionEnd)
        } else if tag == "shutdown"@ {
            Some(CommandKind::Shutdown)
        } else if tag == "resolve_event_icon"@ {
            Some(CommandKind::ResolveEventIcon)
        } else if tag == "is_match_in_progress"@ {
            Some(CommandKind::IsMatchInProgress)
        } else if tag == "get_match_timeline"@ {
            Some(CommandKind::GetMatchTimeline)
        } else if tag == "get_sample_match_data"@ {
            Some(CommandKind::GetSampleMatchData)
        } else {
            None
        }
    }

    /// The name that the member `type` gives the variant.
    pub fn as_str(&self) -> (r: &'static str)
        ensures
            r@ == self.tag(),
    {
        match self {
            CommandKind::Init => "init",
            CommandKind::DetectRunning => "detect_running",
            CommandKind::GetStatus => "get_status",
            CommandKind::PollEvents => "poll_events",
            CommandKind::GetLiveData => "get_live_data",
            CommandKind::SessionStart => "session_start",
            CommandKind::SessionEnd => "session_end",
            CommandKind::Shutdown => "shutdown",
            CommandKind::ResolveEventIcon => "resolve_event_icon",
            CommandKind::IsMatchInProgress => "is_match_in_progress",
            CommandKind::GetMatchTimeline => "get_match_timeline",
            CommandKind::GetSampleMatchData => "get_sample_match_data",
        }
    }

    /// The variant that `tag` names.
    pub fn from_tag(tag: &str) -> (r: Option<CommandKind>)
        ensures
            r == CommandKind::named(tag@),
    {
        if str_eq(tag, "init") {
            Some(CommandKind::Init)
        } else if str_eq(tag, "detect_running") {
            Some(CommandKind::DetectRunning)
        } else if str_eq(tag, "get_status") {
            Some(CommandKind::GetStatus)
        } else if str_eq(tag, "poll_events") {
            Some(CommandKind::PollEvents)
        } else if str_eq(tag, "get_live_data") {
            Some(CommandKind::GetLiveData)
        } else if str_eq(tag, "session_start") {
            Some(CommandKind::SessionStart)
        } else if str_eq(tag, "session_end") {
            Some(CommandKind::SessionEnd)
        } else if str_eq(tag, "shutdown") {
            Some(CommandKind::Shutdown)
        } else if str_eq(tag, "resolve_event_icon") {
            Some(CommandKind::ResolveEventIcon)
        } else if str_eq(tag, "is_match_in_progress") {
            Some(CommandKind::IsMatchInProgress)
        } else if str_eq(tag, "get_match_timeline") {
            Some(CommandKind::GetMatchTimeline)
        } else if str_eq(tag, "get_sample_match_data") {
            Some(CommandKind::GetSampleMatchData)
        } else {
            None
        }
    }
}

/// Each variant is the one that its own name names.
pub proof fn lemma_command_kind_named(kind: CommandKind)
    ensures
        CommandKind::named(kind.tag()) == Some(kind),
{
    reveal_strlit("init");
    reveal_strlit("detect_running");
    reveal_strlit("get_status");
    reveal_strlit("poll_events");
    reveal_strlit("get_live_data");
    reveal_strlit("session_start");
    reveal_strlit("session_end");
    reveal_strlit("shutdown");
    reveal_strlit("resolve_event_icon");
    reveal_strlit("is_match_in_progress");
    reveal_strlit("get_match_timeline");
    reveal_strlit("get_sample_match_data");
    assert("init"@.len() == 4);
    assert("detect_running"@.len() == 14);
    assert("get_status"@.len() == 10);
    assert("poll_events"@.len() == 11 && "poll_events"@[0] == 'p');
    assert("get_live_data"@.len() == 13 && "get_live_data"@[0] == 'g');
    assert("session_start"@.len() == 13 && "session_start"@[0] == 's');
    assert("session_end"@.len() == 11 && "session_end"@[0] == 's');
    assert("shutdown"@.len() == 8);
    assert("resolve_event_icon"@.len() == 18 && "resolve_event_icon"@[0] == 'r');
    assert("is_match_in_progress"@.len() == 20);
    assert("get_match_timeline"@.len() == 18 && "get_match_timeline"@[0] == 'g');
    assert("get_sample_match_data"@.len() == 21);
}

impl CommandView {
    /// The variant of the command.
    pub open spec fn kind(self) -> CommandKind {
        match self {
            CommandView::Init { .. } => CommandKind::Init,
            CommandView::DetectRunning { .. } => CommandKind::DetectRunning,
            CommandView::GetStatus { .. } => CommandKind::GetStatus,
            CommandView::PollEvents { .. } => CommandKind::PollEvents,
            CommandView::GetLiveData { .. } => CommandKind::GetLiveData,
            CommandView::SessionStart { .. } => CommandKind::SessionStart,
            CommandView::SessionEnd { .. } => CommandKind::SessionEnd,
            CommandView::Shutdown { .. } => CommandKind::Shutdown,
            CommandView::ResolveEventIcon { .. } => CommandKind::ResolveEventIcon,
            CommandView::IsMatchInProgress { .. } => CommandKind::IsMatchInProgress,
            CommandView::GetMatchTimeline { .. } => CommandKind::GetMatchTimeline,
            CommandView::GetSampleMatchData { .. } => CommandKind::GetSampleMatchData,
        }
    }
}

// ---------------------------------------------------------------------------
// Lists of names
// ---------------------------------------------------------------------------

/// The JSON values that stand for a list of names.
pub open spec fn encode_names(names: Seq<Seq<char>>) -> Seq<JsonView> {
    encode_list(names, |name: Seq<char>| text_json(name))
}

/// The names that a list of JSON values under the member `key` stands for.
pub open spec fn decode_names(items: Seq<JsonView>, key: Seq<char>) -> Result<
    Seq<Seq<char>>,
    DecodeErrorView,
> {
    decode_list(items, |j: JsonView| as_text(j, key))
}

/// The JSON value for a list of names that may be absent.
pub open spec fn optional_names_json(names: Option<Seq<Seq<char>>>) -> Option<JsonView> {
    match names {
        Some(n) => Some(JsonView::Array(encode_names(n))),
        None => None,
    }
}

/// An optional member read as a list of names.
pub open spec fn optional_names_field(m: Members, key: Seq<char>) -> Result<
    Option<Seq<Seq<char>>>,
    DecodeErrorView,
> {
    match optional(m, key) {
        Some(JsonView::Array(items)) => match decode_names(items, key) {
            Ok(names) => Ok(Some(names)),
            Err(e) => Err(e),
        },
        Some(_) => Err(DecodeErrorView::InvalidField(key)),
        None => Ok(None),
    }
}

/// A list of names is read back from the values that stand for it.
pub proof fn lemma_names_round_trip(names: Seq<Seq<char>>, key: Seq<char>)
    ensures
        decode_names(encode_names(names), key) == read_as(names),
{
    lemma_list_round_trip(names, |name: Seq<char>| text_json(name), |j: JsonView| as_text(j, key));
}

/// The JSON array that stands for a list of names.
pub fn names_to_json(names: &Vec<String>) -> (j: Json)
    ensures
        j@ == JsonView::Array(encode_names(list_view(names@))),
{
    let mut out: Vec<Json> = Vec::new();
    let mut i: usize = 0;
    while i < names.len()
        invariant
            i <= names.len(),
            out@.len() == i,
            forall|k: int| 0 <= k < i ==> (#[trigger] out@[k])@ == text_json(names@[k]@),
        decreases names.len() - i,
    {
        out.push(json_of_text(&names[i]));
        i += 1;
    }
    proof {
        lemma_array_view(out);
        assert(items_view(out@) =~= encode_names(list_view(names@)));
    }
    Json::Array(out)
}

/// Reads a list of names from the values that stand for it under the
/// member `key`.
pub fn names_from_json(items: &Vec<Json>, key: &str) -> (r: Result<Vec<String>, DecodeError>)
    ensures
        decoded_list_view(r) == decode_names(items_view(items@), key@),
{
    let ghost all = items_view(items@);
    let mut out: Vec<String> = Vec::new();
    let mut i: usize = 0;
    proof {
        assert(all.take(0) =~= Seq::empty());
        assert(list_view(out@) =~= Seq::empty());
    }
    while i < items.len()
        invariant
            i <= items.len(),
            all == items_view(items@),
            decode_names(all.take(i as int), key@) == read_as(list_view(out@)),
        decreases items.len() - i,
    {
        proof {
            assert(all.take(i + 1).drop_last() =~= all.take(i as int));
            assert(all.take(i + 1).last() == items@[i as int]@);
        }
        match read_text(&items[i], key) {
            Ok(name) => {
                proof {
                    lemma_list_view_push(out@, name);
                }
                out.push(name);
            },
            Err(e) => {
                proof {
                    lemma_decode_list_fails(all, |j: JsonView| as_text(j, key@), i as int);
                }
                return Err(e);
            },
        }
        i += 1;
    }
    assert(all.take(i as int) =~= all);
    Ok(out)
}

/// The JSON value for a list of names that may be absent.
pub fn json_of_optional_names(names: &Option<Vec<String>>) -> (j: Option<Json>)
    ensures
        option_view(j) == optional_names_json(option_list_view(*names)),
{
    match names {
        Some(n) => Some(names_to_json(n)),
        None => None,
    }
}

/// What reading an optional list gave, as the contracts speak of it.
pub open spec fn decoded_option_list_view<T: View>(
    r: Result<Option<Vec<T>>, DecodeError>,
) -> Result<Option<Seq<T::V>>, DecodeErrorView> {
    match r {
        Ok(value) => Ok(option_list_view(value)),
        Err(error) => Err(error@),
    }
}

/// An optional member read as a list of names.
pub fn read_optional_names_field(m: &Vec<(String, Json)>, key: &str) -> (r: Result<
    Option<Vec<String>>,
    DecodeError,
>)
    ensures
        decoded_option_list_view(r) == optional_names_field(members_view(m@), key@),
{
    match get_optional(m, key) {
        Some(Json::Array(items)) => {
            proof {
                lemma_array_view(*items);
            }
            match names_from_json(items, key) {
                Ok(names) => Ok(Some(names)),
                Err(e) => Err(e),
            }
        },
        Some(_) => Err(DecodeError::InvalidField(key.to_owned())),
        None => Ok(None),
    }
}

// ---------------------------------------------------------------------------
// Commands
// ---------------------------------------------------------------------------

/// The JSON value for an unsigned integer that may be absent.
pub open spec fn optional_unsigned_json(value: Option<u32>) -> Option<JsonView> {
    match value {
        Some(v) => Some(unsigned_json(v as u64)),
        None => None,
    }
}

/// The members that every message which answers to a `request_id` begins
/// with: the name of its variant and the `request_id`.
pub open spec fn head(tag: Seq<char>, request_id: Seq<char>) -> Members {
    Members::empty().push(("type"@, text_json(tag))).push(("request_id"@, text_json(request_id)))
}

/// The object that stands for a command.
pub open spec fn encode_command(c: CommandView) -> JsonView {
    let start = head(c.kind().tag(), c.request_id());
    match c {
        CommandView::SessionEnd { context, .. } => JsonView::Object(
            start.push(("context"@, context)),
        ),
        CommandView::ResolveEventIcon { event_key, .. } => JsonView::Object(
            start.push(("event_key"@, text_json(event_key))),
        ),
        CommandView::IsMatchInProgress { subpack, external_match_id, .. } => JsonView::Object(
            start.push(("subpack"@, unsigned_json(subpack as u64))).push(
                ("external_match_id"@, text_json(external_match_id)),
            ),
        ),
        CommandView::GetMatchTimeline { subpack, external_match_id, entry_types, limit, .. } =>
            JsonView::Object(
            push_optional(
                push_optional(
                    start.push(("subpack"@, unsigned_json(subpack as u64))).push(
                        ("external_match_id"@, text_json(external_match_id)),
                    ),
                    "entry_types"@,
                    optional_names_json(entry_types),
                ),
                "limit"@,
                optional_unsigned_json(limit),
            ),
        ),
        CommandView::GetSampleMatchData { subpack, .. } => JsonView::Object(
            start.push(("subpack"@, unsigned_json(subpack as u64))),
        ),
        _ => JsonView::Object(start),
    }
}

/// The `GetMatchTimeline` command that the members of an object stand for.
pub open spec fn get_match_timeline_of(request_id: Seq<char>, m: Members) -> Result<
    CommandView,
    DecodeErrorView,
> {
    match u8_field(m, "subpack"@) {
        Err(e) => Err(e),
        Ok(subpack) => match text_field(m, "external_match_id"@) {
            Err(e) => Err(e),
            Ok(external_match_id) => match optional_names_field(m, "entry_types"@) {
                Err(e) => Err(e),
                Ok(entry_types) => match optional_u32_field(m, "limit"@) {
                    Err(e) => Err(e),
                    Ok(limit) => Ok(
                        CommandView::GetMatchTimeline {
                            request_id,
                            subpack,
                            external_match_id,
                            entry_types,
                            limit,
                        },
                    ),
                },
            },
        },
    }
}

/// The `IsMatchInProgress` command that the members of an object stand for.
pub open spec fn is_match_in_progress_of(request_id: Seq<char>, m: Members) -> Result<
    CommandView,
    DecodeErrorView,
> {
    match u8_field(m, "subpack"@) {
        Err(e) => Err(e),
        Ok(subpack) => match text_field(m, "external_match_id"@) {
            Err(e) => Err(e),
            Ok(external_match_id) => Ok(
                CommandView::IsMatchInProgress { request_id, subpack, external_match_id },
            ),
        },
    }
}

/// The command of the given variant and `request_id` that the members of an
/// object stand for.
pub open spec fn command_of(kind: CommandKind, request_id: Seq<char>, m: Members) -> Result<
    CommandView,
    DecodeErrorView,
> {
    match kind {
        CommandKind::Init => Ok(CommandView::Init { request_id }),
        CommandKind::DetectRunning => Ok(CommandView::DetectRunning { request_id }),
        CommandKind::GetStatus => Ok(CommandView::GetStatus { request_id }),
        CommandKind::PollEvents => Ok(CommandView::PollEvents { request_id }),
        CommandKind::GetLiveData => Ok(CommandView::GetLiveData { request_id }),
        CommandKind::SessionStart => Ok(CommandView::SessionStart { request_id }),
        CommandKind::SessionEnd => match required(m, "context"@) {
            Err(e) => Err(e),
            Ok(context) => Ok(CommandView::SessionEnd { request_id, context }),
        },
        CommandKind::Shutdown => Ok(CommandView::Shutdown { request_id }),
        CommandKind::ResolveEventIcon => match text_field(m, "event_key"@) {
            Err(e) => Err(e),
            Ok(event_key) => Ok(CommandView::ResolveEventIcon { request_id, event_key }),
        },
        CommandKind::IsMatchInProgress => is_match_in_progress_of(request_id, m),
        CommandKind::GetMatchTimeline => get_match_timeline_of(request_id, m),
        CommandKind::GetSampleMatchData => match u8_field(m, "subpack"@) {
            Err(e) => Err(e),
            Ok(subpack) => Ok(CommandView::GetSampleMatchData { request_id, subpack }),
        },
    }
}

/// The command that the members of an object stand for: the member `type`
/// names the variant, `request_id` is read next, then what the variant
/// carries.
pub open spec fn command_of_members(m: Members) -> Result<CommandView, DecodeErrorView> {
    match text_field(m, "type"@) {
        Err(e) => Err(e),
        Ok(tag) => match CommandKind::named(tag) {
            None => Err(DecodeErrorView::UnknownType(tag)),
            Some(kind) => match text_field(m, "request_id"@) {
                Err(e) => Err(e),
                Ok(request_id) => command_of(kind, request_id, m),
            },
        },
    }
}

/// The command that a JSON value stands for.
pub open spec fn decode_command(j: JsonView) -> Result<CommandView, DecodeErrorView> {
    match object_members(j) {
        Ok(m) => command_of_members(m),
        Err(e) => Err(e),
    }
}

/// The member names of the commands differ from each other.
pub proof fn lemma_command_names()
    ensures
        "type"@ != "request_id"@,
        "type"@ != "context"@,
        "type"@ != "event_key"@,
        "type"@ != "subpack"@,
        "type"@ != "external_match_id"@,
        "type"@ != "entry_types"@,
        "type"@ != "limit"@,
        "request_id"@ != "context"@,
        "request_id"@ != "event_key"@,
        "request_id"@ != "subpack"@,
        "request_id"@ != "external_match_id"@,
        "request_id"@ != "entry_types"@,
        "request_id"@ != "limit"@,
        "subpack"@ != "external_match_id"@,
        "subpack"@ != "entry_types"@,
        "subpack"@ != "limit"@,
        "external_match_id"@ != "entry_types"@,
        "external_match_id"@ != "limit"@,
        "entry_types"@ != "limit"@,
{
    reveal_strlit("type");
    reveal_strlit("request_id");
    reveal_strlit("context");
    reveal_strlit("event_key");
    reveal_strlit("subpack");
    reveal_strlit("external_match_id");
    reveal_strlit("entry_types");
    reveal_strlit("limit");
    assert("type"@.len() == 4);
    assert("request_id"@.len() == 10);
    assert("context"@.len() == 7);
    assert("event_key"@.len() == 9);
    assert("subpack"@.len() == 7);
    assert("external_match_id"@.len() == 17);
    assert("entry_types"@.len() == 11);
    assert("limit"@.len() == 5);
}

/// A command is read back from the object that stands for it.
pub proof fn lemma_command_round_trip(c: CommandView)
    ensures
        decode_command(encode_command(c)) == read_as(c),
{
    broadcast use group_lookup;

    lemma_command_kind_named(c.kind());
    lemma_command_names();
    match c {
        CommandView::GetMatchTimeline { entry_types, .. } => {
            if let Some(names) = entry_types {
                lemma_names_round_trip(names, "entry_types"@);
            }
        },
        _ => {},
    }
}

impl GamepackCommand {
    /// The variant of the command.
    pub fn kind(&self) -> (k: CommandKind)
        ensures
            k == self@.kind(),
    {
        match self {
            GamepackCommand::Init { .. } => CommandKind::Init,
            GamepackCommand::DetectRunning { .. } => CommandKind::DetectRunning,
            GamepackCommand::GetStatus { .. } => CommandKind::GetStatus,
            GamepackCommand::PollEvents { .. } => CommandKind::PollEvents,
            GamepackCommand::GetLiveData { .. } => CommandKind::GetLiveData,
            GamepackCommand::SessionStart { .. } => CommandKind::SessionStart,
            GamepackCommand::SessionEnd { .. } => CommandKind::SessionEnd,
            GamepackCommand::Shutdown { .. } => CommandKind::Shutdown,
            GamepackCommand::ResolveEventIcon { .. } => CommandKind::ResolveEventIcon,
            GamepackCommand::IsMatchInProgress { .. } => CommandKind::IsMatchInProgress,
            GamepackCommand::GetMatchTimeline { .. } => CommandKind::GetMatchTimeline,
            GamepackCommand::GetSampleMatchData { .. } => CommandKind::GetSampleMatchData,
        }
    }

    /// The object that stands for this command.
    pub fn to_json(&self) -> (j: Json)
        ensures
            j@ == encode_command(self@),
    {
        let mut members: Vec<(String, Json)> = Vec::new();
        assert(members_view(members@) =~= Seq::empty());
        push_member(&mut members, "type", Json::String(self.kind().as_str().to_owned()));
        push_member(&mut members, "request_id", Json::String(self.request_id().to_owned()));
        match self {
            GamepackCommand::SessionEnd { context, .. } => {
                push_member(&mut members, "context", context.clone());
            },
            GamepackCommand::ResolveEventIcon { event_key, .. } => {
                push_member(&mut members, "event_key", json_of_text(event_key));
            },
            GamepackCommand::IsMatchInProgress { subpack, external_match_id, .. } => {
                push_member(&mut members, "subpack", json_of_unsigned(*subpack as u64));
                push_member(&mut members, "external_match_id", json_of_text(external_match_id));
            },
            GamepackCommand::GetMatchTimeline {
                subpack,
                external_match_id,
                entry_types,
                limit,
                ..
            } => {
                push_member(&mut members, "subpack", json_of_unsigned(*subpack as u64));
                push_member(&mut members, "external_match_id", json_of_text(external_match_id));
                push_optional_member(
                    &mut members,
                    "entry_types",
                    json_of_optional_names(entry_types),
                );
                let limit_json = match limit {
                    Some(v) => Some(json_of_unsigned(*v as u64)),
                    None => None,
                };
                push_optional_member(&mut members, "limit", limit_json);
            },
            GamepackCommand::GetSampleMatchData { subpack, .. } => {
                push_member(&mut members, "subpack", json_of_unsigned(*subpack as u64));
            },
            _ => {},
        }
        proof {
            lemma_object_view(members);
        }
        Json::Object(members)
    }

    /// Reads what a command of the given variant carries.
    fn from_parts(kind: CommandKind, request_id: String, m: &Vec<(String, Json)>) -> (r: Result<
        GamepackCommand,
        DecodeError,
    >)
        ensures
            decoded_view(r) == command_of(kind, request_id@, members_view(m@)),
    {
        match kind {
            CommandKind::Init => Ok(GamepackCommand::Init { request_id }),
            CommandKind::DetectRunning => Ok(GamepackCommand::DetectRunning { request_id }),
            CommandKind::GetStatus => Ok(GamepackCommand::GetStatus { request_id }),
            CommandKind::PollEvents => Ok(GamepackCommand::PollEvents { request_id }),
            CommandKind::GetLiveData => Ok(GamepackCommand::GetLiveData { request_id }),
            CommandKind::SessionStart => Ok(GamepackCommand::SessionStart { request_id }),
            CommandKind::SessionEnd => match get_required(m, "context") {
                Ok(context) => Ok(
                    GamepackCommand::SessionEnd { request_id, context: context.clone() },
                ),
                Err(e) => Err(e),
            },
            CommandKind::Shutdown => Ok(GamepackCommand::Shutdown { request_id }),
            CommandKind::ResolveEventIcon => match read_text_field(m, "event_key") {
                Ok(event_key) => Ok(GamepackCommand::ResolveEventIcon { request_id, event_key }),
                Err(e) => Err(e),
            },
            CommandKind::IsMatchInProgress => {
                let subpack = match read_u8_field(m, "subpack") {
                    Ok(v) => v,
                    Err(e) => return Err(e),
                };
                let external_match_id = match read_text_field(m, "external_match_id") {
                    Ok(v) => v,
                    Err(e) => return Err(e),
                };
                Ok(GamepackCommand::IsMatchInProgress { request_id, subpack, external_match_id })
            },
            CommandKind::GetMatchTimeline => {
                let subpack = match read_u8_field(m, "subpack") {
                    Ok(v) => v,
                    Err(e) => return Err(e),
                };
                let external_match_id = match read_text_field(m, "external_match_id") {
                    Ok(v) => v,
                    Err(e) => return Err(e),
                };
                let entry_types = match read_optional_names_field(m, "entry_types") {
                    Ok(v) => v,
                    Err(e) => return Err(e),
                };
                let limit = match read_optional_u32_field(m, "limit") {
                    Ok(v) => v,
                    Err(e) => return Err(e),
                };
                Ok(
                    GamepackCommand::GetMatchTimeline {
                        request_id,
                        subpack,
                        external_match_id,
                        entry_types,
                        limit,
                    },
                )
            },
            CommandKind::GetSampleMatchData => match read_u8_field(m, "subpack") {
                Ok(subpack) => Ok(GamepackCommand::GetSampleMatchData { request_id, subpack }),
                Err(e) => Err(e),
            },
        }
    }

    /// Reads a command from the object that stands for it.
    pub fn from_json(j: &Json) -> (r: Result<GamepackCommand, DecodeError>)
        ensures
            decoded_view(r) == decode_command(j@),
    {
        let m = match members_of(j) {
            Ok(m) => m,
            Err(e) => return Err(e),
        };
        let tag = match read_text_field(m, "type") {
            Ok(v) => v,
            Err(e) => return Err(e),
        };
        let kind = match CommandKind::from_tag(tag.as_str()) {
            Some(k) => k,
            None => return Err(DecodeError::UnknownType(tag)),
        };
        let request_id = match read_text_field(m, "request_id") {
            Ok(v) => v,
            Err(e) => return Err(e),
        };
        Self::from_parts(kind, request_id, m)
    }
}

} // verus!
