//! The wire layout of match data messages.

use vstd::prelude::*;

use crate::json::{
    group_lookup, lemma_object_view, members_view, push_member, push_optional,
    push_optional_member, Json, JsonView, Members,
};
use crate::stats::{collect, lemma_collect_distinct, lemma_collect_of_distinct, StatMap};
use crate::text::str_eq;
use crate::types::{
    lemma_summary_source_names_lower, MatchDataMessage, MatchDataMessageView, SummarySource,
};
use crate::views::option_view;
use crate::wire::records::{
    decode_events, decode_moments, encode_events, encode_moments, events_from_json,
    events_to_json, json_of_optional_text, lemma_events_round_trip, lemma_moments_round_trip,
    moments_from_json, moments_to_json, number_json, optional_text_json,
};
use crate::wire::{
    array_field, decoded_view, get_optional, json_of_text, json_of_unsigned, members_of,
    number_field, object_field, object_members, optional, optional_text_field, read_array_field,
    read_as, read_number_field, read_object_field, read_optional_text_field, read_text_field,
    read_u8_field, text_field, text_json, u8_field, unsigned_json, DecodeError, DecodeErrorView,
};

verus! {

/// The members that every match data message begins with: the name of its
/// variant, the subpack and the match.
pub open spec fn message_head(tag: Seq<char>, subpack: u8, external_match_id: Seq<char>) -> Members {
    Members::empty().push(("type"@, text_json(tag))).push(
        ("subpack"@, unsigned_json(subpack as u64)),
    ).push(("external_match_id"@, text_json(external_match_id)))
}

/// The JSON value for stats that may be absent.
pub open spec fn optional_stats_json(stats: Option<Members>) -> Option<JsonView> {
    match stats {
        Some(s) => Some(JsonView::Object(s)),
        None => None,
    }
}

/// The object that stands for a match data message.
pub open spec fn encode_match_data_message(m: MatchDataMessageView) -> JsonView {
    match m {
        MatchDataMessageView::WriteStatistics {
            subpack,
            external_match_id,
            played_at,
            game_time_secs,
            stats,
        } => JsonView::Object(
            push_optional(
                message_head("write_statistics"@, subpack, external_match_id),
                "played_at"@,
                optional_text_json(played_at),
            ).push(("game_time_secs"@, number_json(game_time_secs))).push(
                ("stats"@, JsonView::Object(stats)),
            ),
        ),
        MatchDataMessageView::WriteGameEvents { subpack, external_match_id, events } =>
            JsonView::Object(
            message_head("write_game_events"@, subpack, external_match_id).push(
                ("events"@, JsonView::Array(encode_events(events))),
            ),
        ),
        MatchDataMessageView::WriteMoments { subpack, external_match_id, moments } =>
            JsonView::Object(
            message_head("write_moments"@, subpack, external_match_id).push(
                ("moments"@, JsonView::Array(encode_moments(moments))),
            ),
        ),
        MatchDataMessageView::SetComplete {
            subpack,
            external_match_id,
            summary_source,
            final_stats,
        } => JsonView::Object(
            push_optional(
                message_head("set_complete"@, subpack, external_match_id).push(
                    ("summary_source"@, text_json(summary_source.name())),
                ),
                "final_stats"@,
                optional_stats_json(final_stats),
            ),
        ),
    }
}

/// A required member read as stats: an object, each member set in turn.
pub open spec fn stats_field(m: Members, key: Seq<char>) -> Result<Members, DecodeErrorView> {
    match object_field(m, key) {
        Ok(inner) => Ok(collect(inner)),
        Err(e) => Err(e),
    }
}

/// An optional member read as stats.
pub open spec fn optional_stats_field(m: Members, key: Seq<char>) -> Result<
    Option<Members>,
    DecodeErrorView,
> {
    match optional(m, key) {
        Some(JsonView::Object(inner)) => Ok(Some(collect(inner))),
        Some(_) => Err(DecodeErrorView::InvalidField(key)),
        None => Ok(None),
    }
}

/// A required member read as a summary source.
pub open spec fn summary_source_field(m: Members, key: Seq<char>) -> Result<
    SummarySource,
    DecodeErrorView,
> {
    match text_field(m, key) {
        Err(e) => Err(e),
        Ok(text) => match SummarySource::named(text) {
            Some(source) => Ok(source),
            None => Err(DecodeErrorView::InvalidField(key)),
        },
    }
}

/// The `WriteStatistics` message that the members of an object stand for.
pub open spec fn write_statistics_of(m: Members) -> Result<MatchDataMessageView, DecodeErrorView> {
    match u8_field(m, "subpack"@) {
        Err(e) => Err(e),
        Ok(subpack) => match text_field(m, "external_match_id"@) {
            Err(e) => Err(e),
            Ok(external_match_id) => match optional_text_field(m, "played_at"@) {
                Err(e) => Err(e),
                Ok(played_at) => match number_field(m, "game_time_secs"@) {
                    Err(e) => Err(e),
                    Ok(game_time_secs) => match stats_field(m, "stats"@) {
                        Err(e) => Err(e),
                        Ok(stats) => Ok(
                            MatchDataMessageView::WriteStatistics {
                                subpack,
                                external_match_id,
                                played_at,
                                game_time_secs,
                                stats,
                            },
                        ),
                    },
                },
            },
        },
    }
}

/// The `WriteGameEvents` message that the members of an object stand for.
pub open spec fn write_game_events_of(m: Members) -> Result<MatchDataMessageView, DecodeErrorView> {
    match u8_field(m, "subpack"@) {
        Err(e) => Err(e),
        Ok(subpack) => match text_field(m, "external_match_id"@) {
            Err(e) => Err(e),
            Ok(external_match_id) => match array_field(m, "events"@) {
                Err(e) => Err(e),
                Ok(items) => match decode_events(items) {
                    Err(e) => Err(e),
                    Ok(events) => Ok(
                        MatchDataMessageView::WriteGameEvents { subpack, external_match_id, events },
                    ),
                },
            },
        },
    }
}

/// The `WriteMoments` message that the members of an object stand for.
pub open spec fn write_moments_of(m: Members) -> Result<MatchDataMessageView, DecodeErrorView> {
    match u8_field(m, "subpack"@) {
        Err(e) => Err(e),
        Ok(subpack) => match text_field(m, "external_match_id"@) {
            Err(e) => Err(e),
            Ok(external_match_id) => match array_field(m, "moments"@) {
                Err(e) => Err(e),
                Ok(items) => match decode_moments(items) {
                    Err(e) => Err(e),
                    Ok(moments) => Ok(
                        MatchDataMessageView::WriteMoments { subpack, external_match_id, moments },
                    ),
                },
            },
        },
    }
}

/// The `SetComplete` message that the members of an object stand for.
pub open spec fn set_complete_of(m: Members) -> Result<MatchDataMessageView, DecodeErrorView> {
    match u8_field(m, "subpack"@) {
        Err(e) => Err(e),
        Ok(subpack) => match text_field(m, "external_match_id"@) {
            Err(e) => Err(e),
            Ok(external_match_id) => match summary_source_field(m, "summary_source"@) {
                Err(e) => Err(e),
                Ok(summary_source) => match optional_stats_field(m, "final_stats"@) {
                    Err(e) => Err(e),
                    Ok(final_stats) => Ok(
                        MatchDataMessageView::SetComplete {
                            subpack,
                            external_match_id,
                            summary_source,
                            final_stats,
                        },
                    ),
                },
            },
        },
    }
}

/// The match data message that the members of an object stand for, by the
/// variant that the member `type` names.
pub open spec fn match_data_message_of(m: Members) -> Result<MatchDataMessageView, DecodeErrorView> {
    match text_field(m, "type"@) {
        Err(e) => Err(e),
        Ok(tag) => if tag == "write_statistics"@ {
            write_statistics_of(m)
        } else if tag == "write_game_events"@ {
            write_game_events_of(m)
        } else if tag == "write_moments"@ {
            write_moments_of(m)
        } else if tag == "set_complete"@ {
            set_complete_of(m)
        } else {
            Err(DecodeErrorView::UnknownType(tag))
        },
    }
}

/// The match data message that a JSON value stands for.
pub open spec fn decode_match_data_message(j: JsonView) -> Result<
    MatchDataMessageView,
    DecodeErrorView,
> {
    match object_members(j) {
        Ok(m) => match_data_message_of(m),
        Err(e) => Err(e),
    }
}

/// The variant names of the match data messages differ from each other.
pub proof fn lemma_message_tags()
    ensures
        "write_statistics"@ != "write_game_events"@,
        "write_statistics"@ != "write_moments"@,
        "write_statistics"@ != "set_complete"@,
        "write_game_events"@ != "write_moments"@,
        "write_game_events"@ != "set_complete"@,
        "write_moments"@ != "set_complete"@,
{
    reveal_strlit("write_statistics");
    reveal_strlit("write_game_events");
    reveal_strlit("write_moments");
    reveal_strlit("set_complete");
    assert("write_statistics"@.len() == 16);
    assert("write_game_events"@.len() == 17);
    assert("write_moments"@.len() == 13);
    assert("set_complete"@.len() == 12);
}

/// The member names of the match data messages differ from each other.
pub proof fn lemma_message_names()
    ensures
        "type"@ != "subpack"@,
        "type"@ != "external_match_id"@,
        "type"@ != "played_at"@,
        "type"@ != "game_time_secs"@,
        "type"@ != "stats"@,
        "type"@ != "events"@,
        "type"@ != "moments"@,
        "type"@ != "summary_source"@,
        "type"@ != "final_stats"@,
        "subpack"@ != "external_match_id"@,
        "subpack"@ != "played_at"@,
        "subpack"@ != "game_time_secs"@,
        "subpack"@ != "stats"@,
        "subpack"@ != "events"@,
        "subpack"@ != "moments"@,
        "subpack"@ != "summary_source"@,
        "subpack"@ != "final_stats"@,
        "external_match_id"@ != "played_at"@,
        "external_match_id"@ != "game_time_secs"@,
        "external_match_id"@ != "stats"@,
        "external_match_id"@ != "events"@,
        "external_match_id"@ != "moments"@,
        "external_match_id"@ != "summary_source"@,
        "external_match_id"@ != "final_stats"@,
        "played_at"@ != "game_time_secs"@,
        "played_at"@ != "stats"@,
        "game_time_secs"@ != "stats"@,
        "summary_source"@ != "final_stats"@,
{
    reveal_strlit("type");
    reveal_strlit("subpack");
    reveal_strlit("external_match_id");
    reveal_strlit("played_at");
    reveal_strlit("game_time_secs");
    reveal_strlit("stats");
    reveal_strlit("events");
    reveal_strlit("moments");
    reveal_strlit("summary_source");
    reveal_strlit("final_stats");
    assert("type"@.len() == 4);
    assert("subpack"@.len() == 7);
    assert("external_match_id"@.len() == 17);
    assert("played_at"@.len() == 9);
    assert("game_time_secs"@.len() == 14);
    assert("stats"@.len() == 5);
    assert("events"@.len() == 6);
    assert("moments"@.len() == 7);
    assert("summary_source"@.len() == 14);
    assert("final_stats"@.len() == 11);
    assert("subpack"@[0] == 's' && "moments"@[0] == 'm');
}

/// A match data message in which no stat name occurs twice is read back
/// from the object that stands for it.
pub proof fn lemma_match_data_message_round_trip(m: MatchDataMessageView)
    requires
        m.well_formed(),
    ensures
        decode_match_data_message(encode_match_data_message(m)) == read_as(m),
{
    broadcast use group_lookup;

    lemma_message_tags();
    lemma_message_names();
    lemma_summary_source_names_lower();
    match m {
        MatchDataMessageView::WriteStatistics { stats, .. } => {
            lemma_collect_of_distinct(stats);
        },
        MatchDataMessageView::WriteGameEvents { events, .. } => {
            lemma_events_round_trip(events);
        },
        MatchDataMessageView::WriteMoments { moments, .. } => {
            lemma_moments_round_trip(moments);
        },
        MatchDataMessageView::SetComplete { final_stats, .. } => {
            if let Some(stats) = final_stats {
                lemma_collect_of_distinct(stats);
            }
        },
    }
}

/// In a message that was read from a JSON value, no stat name occurs
/// twice.
pub proof fn lemma_decoded_message_well_formed(j: JsonView)
    ensures
        decode_match_data_message(j) matches Ok(m) ==> m.well_formed(),
{
    if let Ok(m) = decode_match_data_message(j) {
        let members = j->Object_0;
        match m {
            MatchDataMessageView::WriteStatistics { .. } => {
                lemma_collect_distinct(object_field(members, "stats"@)->Ok_0);
            },
            MatchDataMessageView::SetComplete { final_stats: Some(_), .. } => {
                lemma_collect_distinct(optional(members, "final_stats"@)->Some_0->Object_0);
            },
            _ => {},
        }
    }
}

/// The JSON value for stats that may be absent.
pub fn json_of_optional_stats(stats: &Option<StatMap>) -> (j: Option<Json>)
    ensures
        option_view(j) == optional_stats_json(option_view(*stats)),
{
    match stats {
        Some(s) => Some(s.to_json()),
        None => None,
    }
}

/// Starts the members of a match data message.
fn start_message(tag: &str, subpack: u8, external_match_id: &String) -> (members: Vec<
    (String, Json),
>)
    ensures
        members_view(members@) == message_head(tag@, subpack, external_match_id@),
{
    let mut members: Vec<(String, Json)> = Vec::new();
    assert(members_view(members@) =~= Seq::empty());
    push_member(&mut members, "type", Json::String(tag.to_owned()));
    push_member(&mut members, "subpack", json_of_unsigned(subpack as u64));
    push_member(&mut members, "external_match_id", json_of_text(external_match_id));
    members
}

/// A required member read as stats.
pub fn read_stats_field(m: &Vec<(String, Json)>, key: &str) -> (r: Result<StatMap, DecodeError>)
    ensures
        decoded_view(r) == stats_field(members_view(m@), key@),
{
    match read_object_field(m, key) {
        Ok(inner) => Ok(StatMap::from_members(inner)),
        Err(e) => Err(e),
    }
}

/// An optional member read as stats.
pub fn read_optional_stats_field(m: &Vec<(String, Json)>, key: &str) -> (r: Result<
    Option<StatMap>,
    DecodeError,
>)
    ensures
        crate::wire::decoded_option_view(r) == optional_stats_field(members_view(m@), key@),
{
    match get_optional(m, key) {
        Some(Json::Object(inner)) => {
            proof {
                lemma_object_view(*inner);
            }
            Ok(Some(StatMap::from_members(inner)))
        },
        Some(_) => Err(DecodeError::InvalidField(key.to_owned())),
        None => Ok(None),
    }
}

impl MatchDataMessage {
    /// The object that stands for this message.
    pub fn to_json(&self) -> (j: Json)
        ensures
            j@ == encode_match_data_message(self@),
    {
        match self {
            MatchDataMessage::WriteStatistics {
                subpack,
                external_match_id,
                played_at,
                game_time_secs,
                stats,
            } => {
                let mut members = start_message("write_statistics", *subpack, external_match_id);
                push_optional_member(&mut members, "played_at", json_of_optional_text(played_at));
                push_member(&mut members, "game_time_secs", Json::Number(game_time_secs.clone()));
                push_member(&mut members, "stats", stats.to_json());
                proof {
                    lemma_object_view(members);
                }
                Json::Object(members)
            },
            MatchDataMessage::WriteGameEvents { subpack, external_match_id, events } => {
                let mut members = start_message("write_game_events", *subpack, external_match_id);
                push_member(&mut members, "events", events_to_json(events));
                proof {
                    lemma_object_view(members);
                }
                Json::Object(members)
            },
            MatchDataMessage::WriteMoments { subpack, external_match_id, moments } => {
                let mut members = start_message("write_moments", *subpack, external_match_id);
                push_member(&mut members, "moments", moments_to_json(moments));
                proof {
                    lemma_object_view(members);
                }
                Json::Object(members)
            },
            MatchDataMessage::SetComplete {
                subpack,
                external_match_id,
                summary_source,
                final_stats,
            } => {
                let mut members = start_message("set_complete", *subpack, external_match_id);
                push_member(&mut members, "summary_source", Json::String(summary_source.to_string()));
                push_optional_member(
                    &mut members,
                    "final_stats",
                    json_of_optional_stats(final_stats),
                );
                proof {
                    lemma_object_view(members);
                }
                Json::Object(members)
            },
        }
    }

    /// Reads a `WriteStatistics` message from the members of its object.
    fn write_statistics_from(m: &Vec<(String, Json)>) -> (r: Result<MatchDataMessage, DecodeError>)
        ensures
            decoded_view(r) == write_statistics_of(members_view(m@)),
    {
        let subpack = match read_u8_field(m, "subpack") {
            Ok(v) => v,
            Err(e) => return Err(e),
        };
        let external_match_id = match read_text_field(m, "external_match_id") {
            Ok(v) => v,
            Err(e) => return Err(e),
        };
        let played_at = match read_optional_text_field(m, "played_at") {
            Ok(v) => v,
            Err(e) => return Err(e),
        };
        let game_time_secs = match read_number_field(m, "game_time_secs") {
            Ok(v) => v,
            Err(e) => return Err(e),
        };
        let stats = match read_stats_field(m, "stats") {
            Ok(v) => v,
            Err(e) => return Err(e),
        };
        Ok(
            MatchDataMessage::WriteStatistics {
                subpack,
                external_match_id,
                played_at,
                game_time_secs,
                stats,
            },
        )
    }

    /// Reads a `WriteGameEvents` message from the members of its object.
    fn write_game_events_from(m: &Vec<(String, Json)>) -> (r: Result<MatchDataMessage, DecodeError>)
        ensures
            decoded_view(r) == write_game_events_of(members_view(m@)),
    {
        let subpack = match read_u8_field(m, "subpack") {
            Ok(v) => v,
            Err(e) => return Err(e),
        };
        let external_match_id = match read_text_field(m, "external_match_id") {
            Ok(v) => v,
            Err(e) => return Err(e),
        };
        let items = match read_array_field(m, "events") {
            Ok(v) => v,
            Err(e) => return Err(e),
        };
        let events = match events_from_json(items) {
            Ok(v) => v,
            Err(e) => return Err(e),
        };
        Ok(MatchDataMessage::WriteGameEvents { subpack, external_match_id, events })
    }

    /// Reads a `WriteMoments` message from the members of its object.
    fn write_moments_from(m: &Vec<(String, Json)>) -> (r: Result<MatchDataMessage, DecodeError>)
        ensures
            decoded_view(r) == write_moments_of(members_view(m@)),
    {
        let subpack = match read_u8_field(m, "subpack") {
            Ok(v) => v,
            Err(e) => return Err(e),
        };
        let external_match_id = match read_text_field(m, "external_match_id") {
            Ok(v) => v,
            Err(e) => return Err(e),
        };
        let items = match read_array_field(m, "moments") {
            Ok(v) => v,
            Err(e) => return Err(e),
        };
        let moments = match moments_from_json(items) {
            Ok(v) => v,
            Err(e) => return Err(e),
        };
        Ok(MatchDataMessage::WriteMoments { subpack, external_match_id, moments })
    }

    /// Reads a `SetComplete` message from the members of its object.
    fn set_complete_from(m: &Vec<(String, Json)>) -> (r: Result<MatchDataMessage, DecodeError>)
        ensures
            decoded_view(r) == set_complete_of(members_view(m@)),
    {
        let subpack = match read_u8_field(m, "subpack") {
            Ok(v) => v,
            Err(e) => return Err(e),
        };
        let external_match_id = match read_text_field(m, "external_match_id") {
            Ok(v) => v,
            Err(e) => return Err(e),
        };
        let source_text = match read_text_field(m, "summary_source") {
            Ok(v) => v,
            Err(e) => return Err(e),
        };
        let summary_source = match SummarySource::from_name(source_text.as_str()) {
            Some(v) => v,
            None => return Err(DecodeError::InvalidField("summary_source".to_owned())),
        };
        let final_stats = match read_optional_stats_field(m, "final_stats") {
            Ok(v) => v,
            Err(e) => return Err(e),
        };
        Ok(
            MatchDataMessage::SetComplete {
                subpack,
                external_match_id,
                summary_source,
                final_stats,
            },
        )
    }

    /// Reads a message from the members of the object that stands for it.
    pub fn from_members(m: &Vec<(String, Json)>) -> (r: Result<MatchDataMessage, DecodeError>)
        ensures
            decoded_view(r) == match_data_message_of(members_view(m@)),
    {
        let tag = match read_text_field(m, "type") {
            Ok(v) => v,
            Err(e) => return Err(e),
        };
        if str_eq(tag.as_str(), "write_statistics") {
            Self::write_statistics_from(m)
        } else if str_eq(tag.as_str(), "write_game_events") {
            Self::write_game_events_from(m)
        } else if str_eq(tag.as_str(), "write_moments") {
            Self::write_moments_from(m)
        } else if str_eq(tag.as_str(), "set_complete") {
            Self::set_complete_from(m)
        } else {
            Err(DecodeError::UnknownType(tag))
        }
    }

    /// Reads a message from the object that stands for it.
    pub fn from_json(j: &Json) -> (r: Result<MatchDataMessage, DecodeError>)
        ensures
            decoded_view(r) == decode_match_data_message(j@),
    {
        match members_of(j) {
            Ok(m) => Self::from_members(m),
            Err(e) => Err(e),
        }
    }
}

} // verus!
