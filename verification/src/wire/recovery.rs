//! The wire layout of the records of stale match recovery: the questions
//! whether a match is still in progress and what its timeline holds, and
//! their answers.

use vstd::prelude::*;

use crate::json::{
    group_lookup, lemma_object_view, members_view, push_member, push_optional,
    push_optional_member, Json, JsonView, Members,
};
use crate::types::{
    GetMatchTimelineRequest, GetMatchTimelineRequestView, GetMatchTimelineResponse,
    GetMatchTimelineResponseView, IsMatchInProgressRequest, IsMatchInProgressRequestView,
    IsMatchInProgressResponse, IsMatchInProgressResponseView,
};
use crate::wire::commands::{
    json_of_optional_names, lemma_names_round_trip, optional_names_field, optional_names_json,
    optional_unsigned_json, read_optional_names_field,
};
use crate::wire::messages::{encode_match_data_message, lemma_match_data_message_round_trip};
use crate::wire::records::{
    decode_entries, encode_entries, entries_from_json, entries_to_json, lemma_entries_round_trip,
};
use crate::wire::responses::{
    json_of_optional_message, optional_message_field, optional_message_json,
    read_optional_message_field,
};
use crate::wire::{
    array_field, bool_field, decoded_view, json_of_text, json_of_unsigned, members_of,
    object_members, optional_u32_field, read_array_field, read_as, read_bool_field,
    read_optional_u32_field, read_text_field, read_u8_field, text_field, text_json, u8_field,
    unsigned_json, DecodeError, DecodeErrorView,
};

verus! {

/// The member names of the recovery records differ from each other.
pub proof fn lemma_recovery_names()
    ensures
        "subpack"@ != "external_match_id"@,
        "subpack"@ != "entry_types"@,
        "subpack"@ != "limit"@,
        "external_match_id"@ != "entry_types"@,
        "external_match_id"@ != "limit"@,
        "entry_types"@ != "limit"@,
        "still_playing"@ != "set_complete"@,
        "found"@ != "entries"@,
{
    reveal_strlit("subpack");
    reveal_strlit("external_match_id");
    reveal_strlit("entry_types");
    reveal_strlit("limit");
    reveal_strlit("still_playing");
    reveal_strlit("set_complete");
    reveal_strlit("found");
    reveal_strlit("entries");
    assert("subpack"@.len() == 7);
    assert("external_match_id"@.len() == 17);
    assert("entry_types"@.len() == 11);
    assert("limit"@.len() == 5);
    assert("still_playing"@.len() == 13);
    assert("set_complete"@.len() == 12);
    assert("found"@.len() == 5);
    assert("entries"@.len() == 7);
}

// ---------------------------------------------------------------------------
// Is the match still in progress?
// ---------------------------------------------------------------------------

/// The object that stands for the question whether a match is in progress.
pub open spec fn encode_is_match_in_progress_request(r: IsMatchInProgressRequestView) -> JsonView {
    JsonView::Object(
        Members::empty().push(("subpack"@, unsigned_json(r.subpack as u64))).push(
            ("external_match_id"@, text_json(r.external_match_id)),
        ),
    )
}

/// The question whether a match is in progress that a JSON value stands
/// for.
pub open spec fn decode_is_match_in_progress_request(j: JsonView) -> Result<
    IsMatchInProgressRequestView,
    DecodeErrorView,
> {
    match object_members(j) {
        Err(e) => Err(e),
        Ok(m) => match u8_field(m, "subpack"@) {
            Err(e) => Err(e),
            Ok(subpack) => match text_field(m, "external_match_id"@) {
                Err(e) => Err(e),
                Ok(external_match_id) => Ok(
                    IsMatchInProgressRequestView { subpack, external_match_id },
                ),
            },
        },
    }
}

/// The question whether a match is in progress is read back from the
/// object that stands for it.
pub proof fn lemma_is_match_in_progress_request_round_trip(r: IsMatchInProgressRequestView)
    ensures
        decode_is_match_in_progress_request(encode_is_match_in_progress_request(r)) == read_as(r),
{
    broadcast use group_lookup;

    lemma_recovery_names();
}

impl IsMatchInProgressRequest {
    /// The object that stands for this question.
    pub fn to_json(&self) -> (j: Json)
        ensures
            j@ == encode_is_match_in_progress_request(self@),
    {
        let mut members: Vec<(String, Json)> = Vec::new();
        assert(members_view(members@) =~= Seq::empty());
        push_member(&mut members, "subpack", json_of_unsigned(self.subpack as u64));
        push_member(&mut members, "external_match_id", json_of_text(&self.external_match_id));
        proof {
            lemma_object_view(members);
        }
        Json::Object(members)
    }

    /// Reads the question from the object that stands for it.
    pub fn from_json(j: &Json) -> (r: Result<IsMatchInProgressRequest, DecodeError>)
        ensures
            decoded_view(r) == decode_is_match_in_progress_request(j@),
    {
        let m = match members_of(j) {
            Ok(m) => m,
            Err(e) => return Err(e),
        };
        let subpack = match read_u8_field(m, "subpack") {
            Ok(v) => v,
            Err(e) => return Err(e),
        };
        let external_match_id = match read_text_field(m, "external_match_id") {
            Ok(v) => v,
            Err(e) => return Err(e),
        };
        Ok(IsMatchInProgressRequest { subpack, external_match_id })
    }
}

/// The object that stands for the answer whether a match is in progress.
pub open spec fn encode_is_match_in_progress_response(r: IsMatchInProgressResponseView) -> JsonView {
    JsonView::Object(
        push_optional(
            Members::empty().push(("still_playing"@, JsonView::Bool(r.still_playing))),
            "set_complete"@,
            optional_message_json(r.set_complete),
        ),
    )
}

/// The answer whether a match is in progress that a JSON value stands for.
pub open spec fn decode_is_match_in_progress_response(j: JsonView) -> Result<
    IsMatchInProgressResponseView,
    DecodeErrorView,
> {
    match object_members(j) {
        Err(e) => Err(e),
        Ok(m) => match bool_field(m, "still_playing"@) {
            Err(e) => Err(e),
            Ok(still_playing) => match optional_message_field(m, "set_complete"@) {
                Err(e) => Err(e),
                Ok(set_complete) => Ok(
                    IsMatchInProgressResponseView { still_playing, set_complete },
                ),
            },
        },
    }
}

/// The answer whether a match is in progress, with no stat name twice in
/// the message it carries, is read back from the object that stands for
/// it.
pub proof fn lemma_is_match_in_progress_response_round_trip(r: IsMatchInProgressResponseView)
    requires
        r.set_complete matches Some(message) ==> message.well_formed(),
    ensures
        decode_is_match_in_progress_response(encode_is_match_in_progress_response(r)) == read_as(r),
{
    broadcast use group_lookup;

    lemma_recovery_names();
    if let Some(message) = r.set_complete {
        lemma_match_data_message_round_trip(message);
        assert(encode_match_data_message(message) is Object);
    }
}

impl IsMatchInProgressResponse {
    /// The object that stands for this answer.
    pub fn to_json(&self) -> (j: Json)
        ensures
            j@ == encode_is_match_in_progress_response(self@),
    {
        let mut members: Vec<(String, Json)> = Vec::new();
        assert(members_view(members@) =~= Seq::empty());
        push_member(&mut members, "still_playing", Json::Bool(self.still_playing));
        push_optional_member(
            &mut members,
            "set_complete",
            json_of_optional_message(&self.set_complete),
        );
        proof {
            lemma_object_view(members);
        }
        Json::Object(members)
    }

    /// Reads the answer from the object that stands for it.
    pub fn from_json(j: &Json) -> (r: Result<IsMatchInProgressResponse, DecodeError>)
        ensures
            decoded_view(r) == decode_is_match_in_progress_response(j@),
    {
        let m = match members_of(j) {
            Ok(m) => m,
            Err(e) => return Err(e),
        };
        let still_playing = match read_bool_field(m, "still_playing") {
            Ok(v) => v,
            Err(e) => return Err(e),
        };
        let set_complete = match read_optional_message_field(m, "set_complete") {
            Ok(v) => v,
            Err(e) => return Err(e),
        };
        Ok(IsMatchInProgressResponse { still_playing, set_complete })
    }
}

// ---------------------------------------------------------------------------
// What does the match's timeline hold?
// ---------------------------------------------------------------------------

/// The object that stands for the request of a match's timeline.
pub open spec fn encode_get_match_timeline_request(r: GetMatchTimelineRequestView) -> JsonView {
    JsonView::Object(
        push_optional(
            push_optional(
                Members::empty().push(("subpack"@, unsigned_json(r.subpack as u64))).push(
                    ("external_match_id"@, text_json(r.external_match_id)),
                ),
                "entry_types"@,
                optional_names_json(r.entry_types),
            ),
            "limit"@,
            optional_unsigned_json(r.limit),
        ),
    )
}

/// The request of a match's timeline that a JSON value stands for.
pub open spec fn decode_get_match_timeline_request(j: JsonView) -> Result<
    GetMatchTimelineRequestView,
    DecodeErrorView,
> {
    match object_members(j) {
        Err(e) => Err(e),
        Ok(m) => match u8_field(m, "subpack"@) {
            Err(e) => Err(e),
            Ok(subpack) => match text_field(m, "external_match_id"@) {
                Err(e) => Err(e),
                Ok(external_match_id) => match optional_names_field(m, "entry_types"@) {
                    Err(e) => Err(e),
                    Ok(entry_types) => match optional_u32_field(m, "limit"@) {
                        Err(e) => Err(e),
                        Ok(limit) => Ok(
                            GetMatchTimelineRequestView {
                                subpack,
                                external_match_id,
                                entry_types,
                                limit,
                            },
                        ),
                    },
                },
            },
        },
    }
}

/// The request of a match's timeline is read back from the object that
/// stands for it.
pub proof fn lemma_get_match_timeline_request_round_trip(r: GetMatchTimelineRequestView)
    ensures
        decode_get_match_timeline_request(encode_get_match_timeline_request(r)) == read_as(r),
{
    broadcast use group_lookup;

    lemma_recovery_names();
    if let Some(names) = r.entry_types {
        lemma_names_round_trip(names, "entry_types"@);
    }
}

impl GetMatchTimelineRequest {
    /// The object that stands for this request.
    pub fn to_json(&self) -> (j: Json)
        ensures
            j@ == encode_get_match_timeline_request(self@),
    {
        let mut members: Vec<(String, Json)> = Vec::new();
        assert(members_view(members@) =~= Seq::empty());
        push_member(&mut members, "subpack", json_of_unsigned(self.subpack as u64));
        push_member(&mut members, "external_match_id", json_of_text(&self.external_match_id));
        push_optional_member(
            &mut members,
            "entry_types",
            json_of_optional_names(&self.entry_types),
        );
        let limit = match self.limit {
            Some(v) => Some(json_of_unsigned(v as u64)),
            None => None,
        };
        push_optional_member(&mut members, "limit", limit);
        proof {
            lemma_object_view(members);
        }
        Json::Object(members)
    }

    /// Reads the request from the object that stands for it.
    pub fn from_json(j: &Json) -> (r: Result<GetMatchTimelineRequest, DecodeError>)
        ensures
            decoded_view(r) == decode_get_match_timeline_request(j@),
    {
        let m = match members_of(j) {
            Ok(m) => m,
            Err(e) => return Err(e),
        };
        let subpack = match read_u8_field(m, "subpack") {
            Ok(v) => v,
            Err(e) => return Err(e),
        };
        let external_match_id = match read_text_field(m, "external_match_id") {
            Ok(v) => v,
            Err(e) => return Err(e),
        };
        let entry_types = match read_optional_names_field(m, "entry_types") {
            Ok(v) => v,
            Err(e) => return Err(e),
        };
        let limit = match read_optional_u32_field(m, "limit") {
            Ok(v) => v,
            Err(e) => return Err(e),
        };
        Ok(GetMatchTimelineRequest { subpack, external_match_id, entry_types, limit })
    }
}

/// The object that stands for a match's timeline.
pub open spec fn encode_get_match_timeline_response(r: GetMatchTimelineResponseView) -> JsonView {
    JsonView::Object(
        Members::empty().push(("found"@, JsonView::Bool(r.found))).push(
            ("entries"@, JsonView::Array(encode_entries(r.entries))),
        ),
    )
}

/// The match's timeline that a JSON value stands for.
pub open spec fn decode_get_match_timeline_response(j: JsonView) -> Result<
    GetMatchTimelineResponseView,
    DecodeErrorView,
> {
    match object_members(j) {
        Err(e) => Err(e),
        Ok(m) => match bool_field(m, "found"@) {
            Err(e) => Err(e),
            Ok(found) => match array_field(m, "entries"@) {
                Err(e) => Err(e),
                Ok(items) => match decode_entries(items) {
                    Err(e) => Err(e),
                    Ok(entries) => Ok(GetMatchTimelineResponseView { found, entries }),
                },
            },
        },
    }
}

/// A match's timeline is read back from the object that stands for it.
pub proof fn lemma_get_match_timeline_response_round_trip(r: GetMatchTimelineResponseView)
    ensures
        decode_get_match_timeline_response(encode_get_match_timeline_response(r)) == read_as(r),
{
    broadcast use group_lookup;

    lemma_recovery_names();
    lemma_entries_round_trip(r.entries);
}

impl GetMatchTimelineResponse {
    /// The object that stands for this timeline.
    pub fn to_json(&self) -> (j: Json)
        ensures
            j@ == encode_get_match_timeline_response(self@),
    {
        let mut members: Vec<(String, Json)> = Vec::new();
        assert(members_view(members@) =~= Seq::empty());
        push_member(&mut members, "found", Json::Bool(self.found));
        push_member(&mut members, "entries", entries_to_json(&self.entries));
        proof {
            lemma_object_view(members);
        }
        Json::Object(members)
    }

    /// Reads the timeline from the object that stands for it.
    pub fn from_json(j: &Json) -> (r: Result<GetMatchTimelineResponse, DecodeError>)
        ensures
            decoded_view(r) == decode_get_match_timeline_response(j@),
    {
        let m = match members_of(j) {
            Ok(m) => m,
            Err(e) => return Err(e),
        };
        let found = match read_bool_field(m, "found") {
            Ok(v) => v,
            Err(e) => return Err(e),
        };
        let items = match read_array_field(m, "entries") {
            Ok(v) => v,
            Err(e) => return Err(e),
        };
        let entries = match entries_from_json(items) {
            Ok(v) => v,
            Err(e) => return Err(e),
        };
        Ok(GetMatchTimelineResponse { found, entries })
    }
}

} // verus!
