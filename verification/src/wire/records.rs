//! The wire layout of the records that messages carry: game events,
//! moments, timeline entries and match data.

use vstd::prelude::*;

use crate::json::{
    group_lookup, items_view, lemma_array_view, lemma_object_view, members_view, push_member,
    push_optional, push_optional_member, Json, JsonNumber, JsonNumberView, JsonView, Members,
};
use crate::types::{
    EntryType, GameEvent, GameEventView, MatchData, MatchDataView, Moment, MomentView,
    SummarySource, TimelineEntry, TimelineEntryView,
};
use crate::views::{lemma_list_view_push, list_view, option_view};
use crate::wire::{
    decode_list, decoded_list_view, decoded_view, lemma_decode_list_fails, encode_list, i32_field, json_of_signed, json_of_text,
    lemma_list_round_trip, members_of, number_field, object_members, optional_bool_field,
    optional_number_field, read_as, read_i32_field, read_number_field,
    read_optional_bool_field, read_optional_number_field, read_text_field, required, signed_json,
    text_field, text_json, DecodeError, DecodeErrorView,
};

verus! {

/// The JSON value for a number.
pub open spec fn number_json(n: JsonNumberView) -> JsonView {
    JsonView::Number(n)
}

/// The JSON value for a number that may be absent.
pub open spec fn optional_number_json(n: Option<JsonNumberView>) -> Option<JsonView> {
    match n {
        Some(n) => Some(JsonView::Number(n)),
        None => None,
    }
}

/// The JSON value for a string that may be absent.
pub open spec fn optional_text_json(text: Option<Seq<char>>) -> Option<JsonView> {
    match text {
        Some(t) => Some(JsonView::String(t)),
        None => None,
    }
}

/// The JSON value for a boolean that may be absent.
pub open spec fn optional_bool_json(b: Option<bool>) -> Option<JsonView> {
    match b {
        Some(b) => Some(JsonView::Bool(b)),
        None => None,
    }
}

/// The JSON value for a number that may be absent.
pub fn json_of_optional_number(n: &Option<JsonNumber>) -> (j: Option<Json>)
    ensures
        option_view(j) == optional_number_json(option_view(*n)),
{
    match n {
        Some(n) => Some(Json::Number(n.clone())),
        None => None,
    }
}

/// The JSON value for a string that may be absent.
pub fn json_of_optional_text(text: &Option<String>) -> (j: Option<Json>)
    ensures
        option_view(j) == optional_text_json(option_view(*text)),
{
    match text {
        Some(t) => Some(Json::String(t.clone())),
        None => None,
    }
}

/// The JSON value for a boolean that may be absent.
pub fn json_of_optional_bool(b: Option<bool>) -> (j: Option<Json>)
    ensures
        option_view(j) == optional_bool_json(b),
{
    match b {
        Some(b) => Some(Json::Bool(b)),
        None => None,
    }
}

// ---------------------------------------------------------------------------
// Entry types and summary sources
// ---------------------------------------------------------------------------

/// The entry type that a JSON value stands for: the string of its canonical
/// text.
pub open spec fn decode_entry_type(j: JsonView) -> Option<EntryType> {
    match j {
        JsonView::String(text) => EntryType::named(text),
        _ => None,
    }
}

/// The summary source that a JSON value stands for: the string of its
/// canonical text.
pub open spec fn decode_summary_source(j: JsonView) -> Option<SummarySource> {
    match j {
        JsonView::String(text) => SummarySource::named(text),
        _ => None,
    }
}

impl EntryType {
    /// The JSON string that stands for this entry type.
    pub fn to_json(&self) -> (j: Json)
        ensures
            j@ == text_json(self.name()),
            decode_entry_type(j@) == Some(*self),
    {
        proof {
            crate::types::lemma_entry_type_names_lower();
        }
        Json::String(self.to_string())
    }

    /// Reads an entry type from the JSON string that stands for it.
    pub fn from_json(j: &Json) -> (r: Option<EntryType>)
        ensures
            r == decode_entry_type(j@),
    {
        match j {
            Json::String(text) => EntryType::from_name(text.as_str()),
            _ => None,
        }
    }
}

impl SummarySource {
    /// The JSON string that stands for this summary source.
    pub fn to_json(&self) -> (j: Json)
        ensures
            j@ == text_json(self.name()),
            decode_summary_source(j@) == Some(*self),
    {
        proof {
            crate::types::lemma_summary_source_names_lower();
        }
        Json::String(self.to_string())
    }

    /// Reads a summary source from the JSON string that stands for it.
    pub fn from_json(j: &Json) -> (r: Option<SummarySource>)
        ensures
            r == decode_summary_source(j@),
    {
        match j {
            Json::String(text) => SummarySource::from_name(text.as_str()),
            _ => None,
        }
    }
}

// ---------------------------------------------------------------------------
// Game events
// ---------------------------------------------------------------------------

/// The object that stands for a game event.
pub open spec fn encode_game_event(e: GameEventView) -> JsonView {
    JsonView::Object(
        push_optional(
            push_optional(
                Members::empty().push(
                    ("event_type"@, text_json(e.event_type)),
                ).push(
                    ("timestamp_secs"@, number_json(e.timestamp_secs)),
                ).push(
                    ("data"@, e.data),
                ),
                "pre_capture_secs"@,
                optional_number_json(e.pre_capture_secs),
            ),
            "post_capture_secs"@,
            optional_number_json(e.post_capture_secs),
        ),
    )
}

/// The game event that the members of an object stand for.
pub open spec fn game_event_of(m: Members) -> Result<GameEventView, DecodeErrorView> {
    match text_field(m, "event_type"@) {
        Err(e) => Err(e),
        Ok(event_type) => match number_field(m, "timestamp_secs"@) {
            Err(e) => Err(e),
            Ok(timestamp_secs) => match required(m, "data"@) {
                Err(e) => Err(e),
                Ok(data) => match optional_number_field(m, "pre_capture_secs"@) {
                    Err(e) => Err(e),
                    Ok(pre_capture_secs) => match optional_number_field(m, "post_capture_secs"@) {
                        Err(e) => Err(e),
                        Ok(post_capture_secs) => Ok(
                            GameEventView {
                                event_type,
                                timestamp_secs,
                                data,
                                pre_capture_secs,
                                post_capture_secs,
                            },
                        ),
                    },
                },
            },
        },
    }
}

/// The game event that a JSON value stands for.
pub open spec fn decode_game_event(j: JsonView) -> Result<GameEventView, DecodeErrorView> {
    match object_members(j) {
        Ok(m) => game_event_of(m),
        Err(e) => Err(e),
    }
}

/// The member names of a game event differ from each other.
pub proof fn lemma_game_event_names()
    ensures
        "event_type"@ != "timestamp_secs"@,
        "event_type"@ != "data"@,
        "event_type"@ != "pre_capture_secs"@,
        "event_type"@ != "post_capture_secs"@,
        "timestamp_secs"@ != "data"@,
        "timestamp_secs"@ != "pre_capture_secs"@,
        "timestamp_secs"@ != "post_capture_secs"@,
        "data"@ != "pre_capture_secs"@,
        "data"@ != "post_capture_secs"@,
        "pre_capture_secs"@ != "post_capture_secs"@,
{
    reveal_strlit("event_type");
    reveal_strlit("timestamp_secs");
    reveal_strlit("data");
    reveal_strlit("pre_capture_secs");
    reveal_strlit("post_capture_secs");
    assert("event_type"@.len() == 10);
    assert("timestamp_secs"@.len() == 14);
    assert("data"@.len() == 4);
    assert("pre_capture_secs"@.len() == 16);
    assert("post_capture_secs"@.len() == 17);
}

/// A game event is read back from the object that stands for it.
pub proof fn lemma_game_event_round_trip(e: GameEventView)
    ensures
        decode_game_event(encode_game_event(e)) == read_as(e),
{
    broadcast use group_lookup;

    lemma_game_event_names();
}

impl GameEvent {
    /// The object that stands for this event.
    pub fn to_json(&self) -> (j: Json)
        ensures
            j@ == encode_game_event(self@),
    {
        let mut members: Vec<(String, Json)> = Vec::new();
        assert(members_view(members@) =~= Seq::empty());
        push_member(&mut members, "event_type", json_of_text(&self.event_type));
        push_member(&mut members, "timestamp_secs", Json::Number(self.timestamp_secs.clone()));
        push_member(&mut members, "data", self.data.clone());
        push_optional_member(
            &mut members,
            "pre_capture_secs",
            json_of_optional_number(&self.pre_capture_secs),
        );
        push_optional_member(
            &mut members,
            "post_capture_secs",
            json_of_optional_number(&self.post_capture_secs),
        );
        proof {
            lemma_object_view(members);
            assert(members_view(members@) =~= encode_game_event(self@)->Object_0);
        }
        Json::Object(members)
    }

    /// Reads an event from the object that stands for it.
    pub fn from_json(j: &Json) -> (r: Result<GameEvent, DecodeError>)
        ensures
            decoded_view(r) == decode_game_event(j@),
    {
        let m = match members_of(j) {
            Ok(m) => m,
            Err(e) => return Err(e),
        };
        let event_type = match read_text_field(m, "event_type") {
            Ok(v) => v,
            Err(e) => return Err(e),
        };
        let timestamp_secs = match read_number_field(m, "timestamp_secs") {
            Ok(v) => v,
            Err(e) => return Err(e),
        };
        let data = match crate::wire::get_required(m, "data") {
            Ok(v) => v.clone(),
            Err(e) => return Err(e),
        };
        let pre_capture_secs = match read_optional_number_field(m, "pre_capture_secs") {
            Ok(v) => v,
            Err(e) => return Err(e),
        };
        let post_capture_secs = match read_optional_number_field(m, "post_capture_secs") {
            Ok(v) => v,
            Err(e) => return Err(e),
        };
        Ok(GameEvent { event_type, timestamp_secs, data, pre_capture_secs, post_capture_secs })
    }
}

// ---------------------------------------------------------------------------
// Match data
// ---------------------------------------------------------------------------

/// The object that stands for a match's data.
pub open spec fn encode_match_data(m: MatchDataView) -> JsonView {
    JsonView::Object(
        Members::empty().push(
            ("game_slug"@, text_json(m.game_slug)),
        ).push(
            ("game_id"@, signed_json(m.game_id as i64)),
        ).push(
            ("result"@, text_json(m.result)),
        ).push(
            ("details"@, m.details),
        ),
    )
}

/// The match data that the members of an object stand for.
pub open spec fn match_data_of(m: Members) -> Result<MatchDataView, DecodeErrorView> {
    match text_field(m, "game_slug"@) {
        Err(e) => Err(e),
        Ok(game_slug) => match i32_field(m, "game_id"@) {
            Err(e) => Err(e),
            Ok(game_id) => match text_field(m, "result"@) {
                Err(e) => Err(e),
                Ok(result) => match required(m, "details"@) {
                    Err(e) => Err(e),
                    Ok(details) => Ok(MatchDataView { game_slug, game_id, result, details }),
                },
            },
        },
    }
}

/// The match data that a JSON value stands for.
pub open spec fn decode_match_data(j: JsonView) -> Result<MatchDataView, DecodeErrorView> {
    match object_members(j) {
        Ok(m) => match_data_of(m),
        Err(e) => Err(e),
    }
}

/// The member names of match data differ from each other.
pub proof fn lemma_match_data_names()
    ensures
        "game_slug"@ != "game_id"@,
        "game_slug"@ != "result"@,
        "game_slug"@ != "details"@,
        "game_id"@ != "result"@,
        "game_id"@ != "details"@,
        "result"@ != "details"@,
{
    reveal_strlit("game_slug");
    reveal_strlit("game_id");
    reveal_strlit("result");
    reveal_strlit("details");
    assert("game_slug"@.len() == 9);
    assert("game_id"@.len() == 7);
    assert("result"@.len() == 6);
    assert("details"@.len() == 7);
    assert("game_id"@[0] == 'g' && "details"@[0] == 'd');
}

/// Match data is read back from the object that stands for it.
pub proof fn lemma_match_data_round_trip(m: MatchDataView)
    ensures
        decode_match_data(encode_match_data(m)) == read_as(m),
{
    broadcast use group_lookup;

    lemma_match_data_names();
}

impl MatchData {
    /// The object that stands for this match data.
    pub fn to_json(&self) -> (j: Json)
        ensures
            j@ == encode_match_data(self@),
    {
        let mut members: Vec<(String, Json)> = Vec::new();
        assert(members_view(members@) =~= Seq::empty());
        push_member(&mut members, "game_slug", json_of_text(&self.game_slug));
        push_member(&mut members, "game_id", json_of_signed(self.game_id as i64));
        push_member(&mut members, "result", json_of_text(&self.result));
        push_member(&mut members, "details", self.details.clone());
        proof {
            lemma_object_view(members);
            assert(members_view(members@) =~= encode_match_data(self@)->Object_0);
        }
        Json::Object(members)
    }

    /// Reads match data from the object that stands for it.
    pub fn from_json(j: &Json) -> (r: Result<MatchData, DecodeError>)
        ensures
            decoded_view(r) == decode_match_data(j@),
    {
        let m = match members_of(j) {
            Ok(m) => m,
            Err(e) => return Err(e),
        };
        let game_slug = match read_text_field(m, "game_slug") {
            Ok(v) => v,
            Err(e) => return Err(e),
        };
        let game_id = match read_i32_field(m, "game_id") {
            Ok(v) => v,
            Err(e) => return Err(e),
        };
        let result = match read_text_field(m, "result") {
            Ok(v) => v,
            Err(e) => return Err(e),
        };
        let details = match crate::wire::get_required(m, "details") {
            Ok(v) => v.clone(),
            Err(e) => return Err(e),
        };
        Ok(MatchData { game_slug, game_id, result, details })
    }
}

// ---------------------------------------------------------------------------
// Moments
// ---------------------------------------------------------------------------

/// The object that stands for a moment.
pub open spec fn encode_moment(m: MomentView) -> JsonView {
    JsonView::Object(
        Members::empty().push(
            ("moment_id"@, text_json(m.moment_id)),
        ).push(
            ("game_time_secs"@, number_json(m.game_time_secs)),
        ).push(
            ("data"@, m.data),
        ),
    )
}

/// The moment that the members of an object stand for.
pub open spec fn moment_of(m: Members) -> Result<MomentView, DecodeErrorView> {
    match text_field(m, "moment_id"@) {
        Err(e) => Err(e),
        Ok(moment_id) => match number_field(m, "game_time_secs"@) {
            Err(e) => Err(e),
            Ok(game_time_secs) => match required(m, "data"@) {
                Err(e) => Err(e),
                Ok(data) => Ok(MomentView { moment_id, game_time_secs, data }),
            },
        },
    }
}

/// The moment that a JSON value stands for.
pub open spec fn decode_moment(j: JsonView) -> Result<MomentView, DecodeErrorView> {
    match object_members(j) {
        Ok(m) => moment_of(m),
        Err(e) => Err(e),
    }
}

/// The member names of a moment differ from each other.
pub proof fn lemma_moment_names()
    ensures
        "moment_id"@ != "game_time_secs"@,
        "moment_id"@ != "data"@,
        "game_time_secs"@ != "data"@,
{
    reveal_strlit("moment_id");
    reveal_strlit("game_time_secs");
    reveal_strlit("data");
    assert("moment_id"@.len() == 9);
    assert("game_time_secs"@.len() == 14);
    assert("data"@.len() == 4);
}

/// A moment is read back from the object that stands for it.
pub proof fn lemma_moment_round_trip(m: MomentView)
    ensures
        decode_moment(encode_moment(m)) == read_as(m),
{
    broadcast use group_lookup;

    lemma_moment_names();
}

impl Moment {
    /// The object that stands for this moment.
    pub fn to_json(&self) -> (j: Json)
        ensures
            j@ == encode_moment(self@),
    {
        let mut members: Vec<(String, Json)> = Vec::new();
        assert(members_view(members@) =~= Seq::empty());
        push_member(&mut members, "moment_id", json_of_text(&self.moment_id));
        push_member(&mut members, "game_time_secs", Json::Number(self.game_time_secs.clone()));
        push_member(&mut members, "data", self.data.clone());
        proof {
            lemma_object_view(members);
            assert(members_view(members@) =~= encode_moment(self@)->Object_0);
        }
        Json::Object(members)
    }

    /// Reads a moment from the object that stands for it.
    pub fn from_json(j: &Json) -> (r: Result<Moment, DecodeError>)
        ensures
            decoded_view(r) == decode_moment(j@),
    {
        let m = match members_of(j) {
            Ok(m) => m,
            Err(e) => return Err(e),
        };
        let moment_id = match read_text_field(m, "moment_id") {
            Ok(v) => v,
            Err(e) => return Err(e),
        };
        let game_time_secs = match read_number_field(m, "game_time_secs") {
            Ok(v) => v,
            Err(e) => return Err(e),
        };
        let data = match crate::wire::get_required(m, "data") {
            Ok(v) => v.clone(),
            Err(e) => return Err(e),
        };
        Ok(Moment { moment_id, game_time_secs, data })
    }
}

// ---------------------------------------------------------------------------
// Timeline entries
// ---------------------------------------------------------------------------

/// The object that stands for a timeline entry.
pub open spec fn encode_timeline_entry(t: TimelineEntryView) -> JsonView {
    JsonView::Object(
        push_optional(
            Members::empty().push(
                ("entry_type"@, text_json(t.entry_type.name())),
            ).push(
                ("entry_key"@, text_json(t.entry_key)),
            ).push(
                ("game_time_secs"@, number_json(t.game_time_secs)),
            ).push(
                ("captured_at"@, text_json(t.captured_at)),
            ).push(
                ("data"@, t.data),
            ),
            "trigger_fired"@,
            optional_bool_json(t.trigger_fired),
        ),
    )
}

/// A required member read as an entry type.
pub open spec fn entry_type_field(m: Members, key: Seq<char>) -> Result<EntryType, DecodeErrorView> {
    match text_field(m, key) {
        Err(e) => Err(e),
        Ok(text) => match EntryType::named(text) {
            Some(entry_type) => Ok(entry_type),
            None => Err(DecodeErrorView::InvalidField(key)),
        },
    }
}

/// The timeline entry that the members of an object stand for.
pub open spec fn timeline_entry_of(m: Members) -> Result<TimelineEntryView, DecodeErrorView> {
    match entry_type_field(m, "entry_type"@) {
        Err(e) => Err(e),
        Ok(entry_type) => match text_field(m, "entry_key"@) {
            Err(e) => Err(e),
            Ok(entry_key) => match number_field(m, "game_time_secs"@) {
                Err(e) => Err(e),
                Ok(game_time_secs) => match text_field(m, "captured_at"@) {
                    Err(e) => Err(e),
                    Ok(captured_at) => match required(m, "data"@) {
                        Err(e) => Err(e),
                        Ok(data) => match optional_bool_field(m, "trigger_fired"@) {
                            Err(e) => Err(e),
                            Ok(trigger_fired) => Ok(
                                TimelineEntryView {
                                    entry_type,
                                    entry_key,
                                    game_time_secs,
                                    captured_at,
                                    data,
                                    trigger_fired,
                                },
                            ),
                        },
                    },
                },
            },
        },
    }
}

/// The timeline entry that a JSON value stands for.
pub open spec fn decode_timeline_entry(j: JsonView) -> Result<TimelineEntryView, DecodeErrorView> {
    match object_members(j) {
        Ok(m) => timeline_entry_of(m),
        Err(e) => Err(e),
    }
}

/// The member names of a timeline entry differ from each other.
pub proof fn lemma_timeline_entry_names()
    ensures
        "entry_type"@ != "entry_key"@,
        "entry_type"@ != "game_time_secs"@,
        "entry_type"@ != "captured_at"@,
        "entry_type"@ != "data"@,
        "entry_type"@ != "trigger_fired"@,
        "entry_key"@ != "game_time_secs"@,
        "entry_key"@ != "captured_at"@,
        "entry_key"@ != "data"@,
        "entry_key"@ != "trigger_fired"@,
        "game_time_secs"@ != "captured_at"@,
        "game_time_secs"@ != "data"@,
        "game_time_secs"@ != "trigger_fired"@,
        "captured_at"@ != "data"@,
        "captured_at"@ != "trigger_fired"@,
        "data"@ != "trigger_fired"@,
{
    reveal_strlit("entry_type");
    reveal_strlit("entry_key");
    reveal_strlit("game_time_secs");
    reveal_strlit("captured_at");
    reveal_strlit("data");
    reveal_strlit("trigger_fired");
    assert("entry_type"@.len() == 10);
    assert("entry_key"@.len() == 9);
    assert("game_time_secs"@.len() == 14);
    assert("captured_at"@.len() == 11);
    assert("data"@.len() == 4);
    assert("trigger_fired"@.len() == 13);
}

/// A timeline entry is read back from the object that stands for it.
pub proof fn lemma_timeline_entry_round_trip(t: TimelineEntryView)
    ensures
        decode_timeline_entry(encode_timeline_entry(t)) == read_as(t),
{
    broadcast use group_lookup;

    lemma_timeline_entry_names();
    crate::types::lemma_entry_type_names_lower();
}

impl TimelineEntry {
    /// The object that stands for this entry.
    pub fn to_json(&self) -> (j: Json)
        ensures
            j@ == encode_timeline_entry(self@),
    {
        let mut members: Vec<(String, Json)> = Vec::new();
        assert(members_view(members@) =~= Seq::empty());
        push_member(&mut members, "entry_type", Json::String(self.entry_type.to_string()));
        push_member(&mut members, "entry_key", json_of_text(&self.entry_key));
        push_member(&mut members, "game_time_secs", Json::Number(self.game_time_secs.clone()));
        push_member(&mut members, "captured_at", json_of_text(&self.captured_at));
        push_member(&mut members, "data", self.data.clone());
        push_optional_member(
            &mut members,
            "trigger_fired",
            json_of_optional_bool(self.trigger_fired),
        );
        proof {
            lemma_object_view(members);
            assert(members_view(members@) =~= encode_timeline_entry(self@)->Object_0);
        }
        Json::Object(members)
    }

    /// Reads an entry from the object that stands for it.
    pub fn from_json(j: &Json) -> (r: Result<TimelineEntry, DecodeError>)
        ensures
            decoded_view(r) == decode_timeline_entry(j@),
    {
        let m = match members_of(j) {
            Ok(m) => m,
            Err(e) => return Err(e),
        };
        let entry_type_text = match read_text_field(m, "entry_type") {
            Ok(v) => v,
            Err(e) => return Err(e),
        };
        let entry_type = match EntryType::from_name(entry_type_text.as_str()) {
            Some(v) => v,
            None => return Err(DecodeError::InvalidField("entry_type".to_owned())),
        };
        let entry_key = match read_text_field(m, "entry_key") {
            Ok(v) => v,
            Err(e) => return Err(e),
        };
        let game_time_secs = match read_number_field(m, "game_time_secs") {
            Ok(v) => v,
            Err(e) => return Err(e),
        };
        let captured_at = match read_text_field(m, "captured_at") {
            Ok(v) => v,
            Err(e) => return Err(e),
        };
        let data = match crate::wire::get_required(m, "data") {
            Ok(v) => v.clone(),
            Err(e) => return Err(e),
        };
        let trigger_fired = match read_optional_bool_field(m, "trigger_fired") {
            Ok(v) => v,
            Err(e) => return Err(e),
        };
        Ok(TimelineEntry { entry_type, entry_key, game_time_secs, captured_at, data, trigger_fired })
    }
}

// ---------------------------------------------------------------------------
// Lists of game events
// ---------------------------------------------------------------------------

/// The JSON values that stand for a list of game events.
pub open spec fn encode_events(items: Seq<GameEventView>) -> Seq<JsonView> {
    encode_list(items, |item: GameEventView| encode_game_event(item))
}

/// The game events that a list of JSON values stands for; the first value that
/// cannot be read gives the error.
pub open spec fn decode_events(items: Seq<JsonView>) -> Result<Seq<GameEventView>, DecodeErrorView> {
    decode_list(items, |j: JsonView| decode_game_event(j))
}

/// A list of game events is read back from the values that stand for it.
pub proof fn lemma_events_round_trip(items: Seq<GameEventView>)
    ensures
        decode_events(encode_events(items)) == read_as(items),
{
    assert forall|i: int| 0 <= i < items.len() implies decode_game_event(encode_game_event(#[trigger] items[i]))
        == read_as(items[i]) by {
        lemma_game_event_round_trip(items[i]);
    }
    lemma_list_round_trip(
        items,
        |item: GameEventView| encode_game_event(item),
        |j: JsonView| decode_game_event(j),
    );
}

/// The JSON array that stands for a list of game events.
pub fn events_to_json(items: &Vec<GameEvent>) -> (j: Json)
    ensures
        j@ == JsonView::Array(encode_events(list_view(items@))),
{
    let mut out: Vec<Json> = Vec::new();
    let mut i: usize = 0;
    while i < items.len()
        invariant
            i <= items.len(),
            out@.len() == i,
            forall|k: int| 0 <= k < i ==> (#[trigger] out@[k])@ == encode_game_event(items@[k]@),
        decreases items.len() - i,
    {
        out.push(items[i].to_json());
        i += 1;
    }
    proof {
        lemma_array_view(out);
        assert(items_view(out@) =~= encode_events(list_view(items@)));
    }
    Json::Array(out)
}

/// Reads a list of game events from the values that stand for it.
pub fn events_from_json(items: &Vec<Json>) -> (r: Result<Vec<GameEvent>, DecodeError>)
    ensures
        decoded_list_view(r) == decode_events(items_view(items@)),
{
    let ghost all = items_view(items@);
    let mut out: Vec<GameEvent> = Vec::new();
    let mut i: usize = 0;
    proof {
        assert(all.take(0) =~= Seq::empty());
        assert(list_view(out@) =~= Seq::empty());
    }
    while i < items.len()
        invariant
            i <= items.len(),
            all == items_view(items@),
            decode_events(all.take(i as int)) == read_as(list_view(out@)),
        decreases items.len() - i,
    {
        proof {
            assert(all.take(i + 1).drop_last() =~= all.take(i as int));
            assert(all.take(i + 1).last() == items@[i as int]@);
        }
        match GameEvent::from_json(&items[i]) {
            Ok(item) => {
                proof {
                    lemma_list_view_push(out@, item);
                }
                out.push(item);
            },
            Err(e) => {
                proof {
                    lemma_decode_list_fails(all, |j: JsonView| decode_game_event(j), i as int);
                }
                return Err(e);
            },
        }
        i += 1;
    }
    assert(all.take(i as int) =~= all);
    Ok(out)
}

// ---------------------------------------------------------------------------
// Lists of moments
// ---------------------------------------------------------------------------

/// The JSON values that stand for a list of moments.
pub open spec fn encode_moments(items: Seq<MomentView>) -> Seq<JsonView> {
    encode_list(items, |item: MomentView| encode_moment(item))
}

/// The moments that a list of JSON values stands for; the first value that
/// cannot be read gives the error.
pub open spec fn decode_moments(items: Seq<JsonView>) -> Result<Seq<MomentView>, DecodeErrorView> {
    decode_list(items, |j: JsonView| decode_moment(j))
}

/// A list of moments is read back from the values that stand for it.
pub proof fn lemma_moments_round_trip(items: Seq<MomentView>)
    ensures
        decode_moments(encode_moments(items)) == read_as(items),
{
    assert forall|i: int| 0 <= i < items.len() implies decode_moment(encode_moment(#[trigger] items[i]))
        == read_as(items[i]) by {
        lemma_moment_round_trip(items[i]);
    }
    lemma_list_round_trip(
        items,
        |item: MomentView| encode_moment(item),
        |j: JsonView| decode_moment(j),
    );
}

/// The JSON array that stands for a list of moments.
pub fn moments_to_json(items: &Vec<Moment>) -> (j: Json)
    ensures
        j@ == JsonView::Array(encode_moments(list_view(items@))),
{
    let mut out: Vec<Json> = Vec::new();
    let mut i: usize = 0;
    while i < items.len()
        invariant
            i <= items.len(),
            out@.len() == i,
            forall|k: int| 0 <= k < i ==> (#[trigger] out@[k])@ == encode_moment(items@[k]@),
        decreases items.len() - i,
    {
        out.push(items[i].to_json());
        i += 1;
    }
    proof {
        lemma_array_view(out);
        assert(items_view(out@) =~= encode_moments(list_view(items@)));
    }
    Json::Array(out)
}

/// Reads a list of moments from the values that stand for it.
pub fn moments_from_json(items: &Vec<Json>) -> (r: Result<Vec<Moment>, DecodeError>)
    ensures
        decoded_list_view(r) == decode_moments(items_view(items@)),
{
    let ghost all = items_view(items@);
    let mut out: Vec<Moment> = Vec::new();
    let mut i: usize = 0;
    proof {
        assert(all.take(0) =~= Seq::empty());
        assert(list_view(out@) =~= Seq::empty());
    }
    while i < items.len()
        invariant
            i <= items.len(),
            all == items_view(items@),
            decode_moments(all.take(i as int)) == read_as(list_view(out@)),
        decreases items.len() - i,
    {
        proof {
            assert(all.take(i + 1).drop_last() =~= all.take(i as int));
            assert(all.take(i + 1).last() == items@[i as int]@);
        }
        match Moment::from_json(&items[i]) {
            Ok(item) => {
                proof {
                    lemma_list_view_push(out@, item);
                }
                out.push(item);
            },
            Err(e) => {
                proof {
                    lemma_decode_list_fails(all, |j: JsonView| decode_moment(j), i as int);
                }
                return Err(e);
            },
        }
        i += 1;
    }
    assert(all.take(i as int) =~= all);
    Ok(out)
}

// ---------------------------------------------------------------------------
// Lists of timeline entries
// ---------------------------------------------------------------------------

/// The JSON values that stand for a list of timeline entries.
pub open spec fn encode_entries(items: Seq<TimelineEntryView>) -> Seq<JsonView> {
    encode_list(items, |item: TimelineEntryView| encode_timeline_entry(item))
}

/// The timeline entries that a list of JSON values stands for; the first value that
/// cannot be read gives the error.
pub open spec fn decode_entries(items: Seq<JsonView>) -> Result<Seq<TimelineEntryView>, DecodeErrorView> {
    decode_list(items, |j: JsonView| decode_timeline_entry(j))
}

/// A list of timeline entries is read back from the values that stand for it.
pub proof fn lemma_entries_round_trip(items: Seq<TimelineEntryView>)
    ensures
        decode_entries(encode_entries(items)) == read_as(items),
{
    assert forall|i: int| 0 <= i < items.len() implies decode_timeline_entry(encode_timeline_entry(#[trigger] items[i]))
        == read_as(items[i]) by {
        lemma_timeline_entry_round_trip(items[i]);
    }
    lemma_list_round_trip(
        items,
        |item: TimelineEntryView| encode_timeline_entry(item),
        |j: JsonView| decode_timeline_entry(j),
    );
}

/// The JSON array that stands for a list of timeline entries.
pub fn entries_to_json(items: &Vec<TimelineEntry>) -> (j: Json)
    ensures
        j@ == JsonView::Array(encode_entries(list_view(items@))),
{
    let mut out: Vec<Json> = Vec::new();
    let mut i: usize = 0;
    while i < items.len()
        invariant
            i <= items.len(),
            out@.len() == i,
            forall|k: int| 0 <= k < i ==> (#[trigger] out@[k])@ == encode_timeline_entry(items@[k]@),
        decreases items.len() - i,
    {
        out.push(items[i].to_json());
        i += 1;
    }
    proof {
        lemma_array_view(out);
        assert(items_view(out@) =~= encode_entries(list_view(items@)));
    }
    Json::Array(out)
}

/// Reads a list of timeline entries from the values that stand for it.
pub fn entries_from_json(items: &Vec<Json>) -> (r: Result<Vec<TimelineEntry>, DecodeError>)
    ensures
        decoded_list_view(r) == decode_entries(items_view(items@)),
{
    let ghost all = items_view(items@);
    let mut out: Vec<TimelineEntry> = Vec::new();
    let mut i: usize = 0;
    proof {
        assert(all.take(0) =~= Seq::empty());
        assert(list_view(out@) =~= Seq::empty());
    }
    while i < items.len()
        invariant
            i <= items.len(),
            all == items_view(items@),
            decode_entries(all.take(i as int)) == read_as(list_view(out@)),
        decreases items.len() - i,
    {
        proof {
            assert(all.take(i + 1).drop_last() =~= all.take(i as int));
            assert(all.take(i + 1).last() == items@[i as int]@);
        }
        match TimelineEntry::from_json(&items[i]) {
            Ok(item) => {
                proof {
                    lemma_list_view_push(out@, item);
                }
                out.push(item);
            },
            Err(e) => {
                proof {
                    lemma_decode_list_fails(all, |j: JsonView| decode_timeline_entry(j), i as int);
                }
                return Err(e);
            },
        }
        i += 1;
    }
    assert(all.take(i as int) =~= all);
    Ok(out)
}

} // verus!
