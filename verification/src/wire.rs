//! The wire format: how each message is laid out as a JSON object, and how
//! an object is read back into a message.
//!
//! Every message object names its variant in the member `type`, in lower
//! case with underscores. An optional field that is absent is left out of
//! the object; on reading, a member that is left out and one that is `null`
//! both stand for an absent field.

use vstd::prelude::*;

use crate::json::{find, lookup, members_view, Json, JsonNumber, JsonNumberView, JsonView, Members};
use crate::views::option_view;

pub mod commands;
pub mod messages;
pub mod records;
pub mod recovery;
pub mod responses;

verus! {

/// The JSON string that holds `text`.
pub open spec fn text_json(text: Seq<char>) -> JsonView {
    JsonView::String(text)
}

/// The JSON number that holds the unsigned integer `value`.
pub open spec fn unsigned_json(value: u64) -> JsonView {
    JsonView::Number(JsonNumberView::PosInt(value))
}

/// The JSON number that holds the signed integer `value`.
pub open spec fn signed_json(value: i64) -> JsonView {
    if value >= 0 {
        JsonView::Number(JsonNumberView::PosInt(value as u64))
    } else {
        JsonView::Number(JsonNumberView::NegInt(value))
    }
}

/// The JSON value for a string.
pub fn json_of_text(text: &String) -> (j: Json)
    ensures
        j@ == text_json(text@),
{
    Json::String(text.clone())
}

/// The JSON value for an unsigned integer.
pub fn json_of_unsigned(value: u64) -> (j: Json)
    ensures
        j@ == unsigned_json(value),
{
    Json::Number(JsonNumber::PosInt(value))
}

/// The JSON value for a signed integer.
pub fn json_of_signed(value: i64) -> (j: Json)
    ensures
        j@ == signed_json(value),
{
    if value >= 0 {
        Json::Number(JsonNumber::PosInt(value as u64))
    } else {
        Json::Number(JsonNumber::NegInt(value))
    }
}

/// Why a JSON value could not be read as a message.
#[derive(Debug, Clone, PartialEq, Eq)]
pub enum DecodeError {
    /// The text is not JSON. Holds the parser's own message.
    Syntax(String),
    /// The value is not an object.
    NotAnObject,
    /// The named member is required and is not there.
    MissingField(String),
    /// The named member holds a value of the wrong kind, or one out of range.
    InvalidField(String),
    /// The member `type` names no variant. Holds the name it gave.
    UnknownType(String),
}

/// What a [`DecodeError`] holds.
pub enum DecodeErrorView {
    Syntax(Seq<char>),
    NotAnObject,
    MissingField(Seq<char>),
    InvalidField(Seq<char>),
    UnknownType(Seq<char>),
}

impl View for DecodeError {
    type V = DecodeErrorView;

    open spec fn view(&self) -> DecodeErrorView {
        match self {
            DecodeError::Syntax(m) => DecodeErrorView::Syntax(m@),
            DecodeError::NotAnObject => DecodeErrorView::NotAnObject,
            DecodeError::MissingField(f) => DecodeErrorView::MissingField(f@),
            DecodeError::InvalidField(f) => DecodeErrorView::InvalidField(f@),
            DecodeError::UnknownType(t) => DecodeErrorView::UnknownType(t@),
        }
    }
}

impl DecodeError {
    /// The text of the error.
    pub open spec fn text(error: DecodeErrorView) -> Seq<char> {
        match error {
            DecodeErrorView::Syntax(message) => message,
            DecodeErrorView::NotAnObject => "expected a JSON object"@,
            DecodeErrorView::MissingField(field) => "missing field `"@ + field + "`"@,
            DecodeErrorView::InvalidField(field) => "invalid value for field `"@ + field + "`"@,
            DecodeErrorView::UnknownType(tag) => "unknown variant `"@ + tag + "`"@,
        }
    }

    /// The text of the error.
    pub fn to_string(&self) -> (r: String)
        ensures
            r@ == Self::text(self@),
    {
        match self {
            DecodeError::Syntax(message) => message.clone(),
            DecodeError::NotAnObject => "expected a JSON object".to_owned(),
            DecodeError::MissingField(field) => {
                let mut out = "missing field `".to_owned();
                out.append(field.as_str());
                out.append("`");
                out
            },
            DecodeError::InvalidField(field) => {
                let mut out = "invalid value for field `".to_owned();
                out.append(field.as_str());
                out.append("`");
                out
            },
            DecodeError::UnknownType(tag) => {
                let mut out = "unknown variant `".to_owned();
                out.append(tag.as_str());
                out.append("`");
                out
            },
        }
    }
}

/// What reading a value gave, as the contracts speak of it.
pub open spec fn decoded_view<T: View>(r: Result<T, DecodeError>) -> Result<T::V, DecodeErrorView> {
    match r {
        Ok(value) => Ok(value@),
        Err(error) => Err(error@),
    }
}

/// What reading an optional value gave, as the contracts speak of it.
pub open spec fn decoded_option_view<T: View>(r: Result<Option<T>, DecodeError>) -> Result<
    Option<T::V>,
    DecodeErrorView,
> {
    match r {
        Ok(value) => Ok(option_view(value)),
        Err(error) => Err(error@),
    }
}

/// The outcome of a reading that gave `value`.
pub open spec fn read_as<T>(value: T) -> Result<T, DecodeErrorView> {
    Ok(value)
}

/// What reading a list gave, as the contracts speak of it.
pub open spec fn decoded_list_view<T: View>(r: Result<Vec<T>, DecodeError>) -> Result<
    Seq<T::V>,
    DecodeErrorView,
> {
    match r {
        Ok(items) => Ok(crate::views::list_view(items@)),
        Err(error) => Err(error@),
    }
}

/// The members of an object; a value of any other kind is refused.
pub open spec fn object_members(j: JsonView) -> Result<Members, DecodeErrorView> {
    match j {
        JsonView::Object(members) => Ok(members),
        _ => Err(DecodeErrorView::NotAnObject),
    }
}

/// The value of a member that must be there.
pub open spec fn required(members: Members, key: Seq<char>) -> Result<JsonView, DecodeErrorView> {
    match lookup(members, key) {
        Some(value) => Ok(value),
        None => Err(DecodeErrorView::MissingField(key)),
    }
}

/// The value of a member that may be left out; `null` counts as left out.
pub open spec fn optional(members: Members, key: Seq<char>) -> Option<JsonView> {
    match lookup(members, key) {
        Some(JsonView::Null) => None,
        Some(value) => Some(value),
        None => None,
    }
}

/// `value` read as a string for the member `key`.
pub open spec fn as_text(value: JsonView, key: Seq<char>) -> Result<Seq<char>, DecodeErrorView> {
    match value {
        JsonView::String(text) => Ok(text),
        _ => Err(DecodeErrorView::InvalidField(key)),
    }
}

/// `value` read as a boolean for the member `key`.
pub open spec fn as_bool(value: JsonView, key: Seq<char>) -> Result<bool, DecodeErrorView> {
    match value {
        JsonView::Bool(b) => Ok(b),
        _ => Err(DecodeErrorView::InvalidField(key)),
    }
}

/// `value` read as a number for the member `key`.
pub open spec fn as_number(value: JsonView, key: Seq<char>) -> Result<
    JsonNumberView,
    DecodeErrorView,
> {
    match value {
        JsonView::Number(n) => Ok(n),
        _ => Err(DecodeErrorView::InvalidField(key)),
    }
}

/// The integer that a JSON number holds, if it holds one.
pub open spec fn integer_of(n: JsonNumberView) -> Option<int> {
    match n {
        JsonNumberView::PosInt(u) => Some(u as int),
        JsonNumberView::NegInt(i) => Some(i as int),
        JsonNumberView::Decimal(_) => None,
    }
}

/// `value` read as an integer from `low` to `high` for the member `key`.
pub open spec fn as_integer(value: JsonView, key: Seq<char>, low: int, high: int) -> Result<
    int,
    DecodeErrorView,
> {
    match value {
        JsonView::Number(n) => match integer_of(n) {
            Some(i) => if low <= i <= high {
                Ok(i)
            } else {
                Err(DecodeErrorView::InvalidField(key))
            },
            None => Err(DecodeErrorView::InvalidField(key)),
        },
        _ => Err(DecodeErrorView::InvalidField(key)),
    }
}

/// A required member read as a string.
pub open spec fn text_field(members: Members, key: Seq<char>) -> Result<Seq<char>, DecodeErrorView> {
    match required(members, key) {
        Ok(value) => as_text(value, key),
        Err(e) => Err(e),
    }
}

/// A required member read as a boolean.
pub open spec fn bool_field(members: Members, key: Seq<char>) -> Result<bool, DecodeErrorView> {
    match required(members, key) {
        Ok(value) => as_bool(value, key),
        Err(e) => Err(e),
    }
}

/// A required member read as a number.
pub open spec fn number_field(members: Members, key: Seq<char>) -> Result<
    JsonNumberView,
    DecodeErrorView,
> {
    match required(members, key) {
        Ok(value) => as_number(value, key),
        Err(e) => Err(e),
    }
}

/// A required member read as an integer from `low` to `high`.
pub open spec fn integer_field(members: Members, key: Seq<char>, low: int, high: int) -> Result<
    int,
    DecodeErrorView,
> {
    match required(members, key) {
        Ok(value) => as_integer(value, key, low, high),
        Err(e) => Err(e),
    }
}

/// An optional member read as a string.
pub open spec fn optional_text_field(members: Members, key: Seq<char>) -> Result<
    Option<Seq<char>>,
    DecodeErrorView,
> {
    match optional(members, key) {
        Some(value) => match as_text(value, key) {
            Ok(text) => Ok(Some(text)),
            Err(e) => Err(e),
        },
        None => Ok(None),
    }
}

/// An optional member read as a boolean.
pub open spec fn optional_bool_field(members: Members, key: Seq<char>) -> Result<
    Option<bool>,
    DecodeErrorView,
> {
    match optional(members, key) {
        Some(value) => match as_bool(value, key) {
            Ok(b) => Ok(Some(b)),
            Err(e) => Err(e),
        },
        None => Ok(None),
    }
}

/// An optional member read as a number.
pub open spec fn optional_number_field(members: Members, key: Seq<char>) -> Result<
    Option<JsonNumberView>,
    DecodeErrorView,
> {
    match optional(members, key) {
        Some(value) => match as_number(value, key) {
            Ok(n) => Ok(Some(n)),
            Err(e) => Err(e),
        },
        None => Ok(None),
    }
}

/// An optional member read as an integer from `low` to `high`.
pub open spec fn optional_integer_field(
    members: Members,
    key: Seq<char>,
    low: int,
    high: int,
) -> Result<Option<int>, DecodeErrorView> {
    match optional(members, key) {
        Some(value) => match as_integer(value, key, low, high) {
            Ok(i) => Ok(Some(i)),
            Err(e) => Err(e),
        },
        None => Ok(None),
    }
}

/// What taking an object's members gave, as the contracts speak of it.
pub open spec fn members_result_view(r: Result<&Vec<(String, Json)>, DecodeError>) -> Result<
    Members,
    DecodeErrorView,
> {
    match r {
        Ok(members) => Ok(members_view(members@)),
        Err(e) => Err(e@),
    }
}

/// What reading an integer gave, as the contracts speak of it.
pub open spec fn integer_result_view(r: Result<i128, DecodeError>) -> Result<int, DecodeErrorView> {
    match r {
        Ok(i) => Ok(i as int),
        Err(e) => Err(e@),
    }
}

/// The members of an object; a value of any other kind is refused.
pub fn members_of(j: &Json) -> (r: Result<&Vec<(String, Json)>, DecodeError>)
    ensures
        members_result_view(r) == object_members(j@),
{
    match j {
        Json::Object(members) => {
            proof {
                crate::json::lemma_object_view(*members);
            }
            Ok(members)
        },
        _ => Err(DecodeError::NotAnObject),
    }
}

/// The value of a member that must be there.
pub fn get_required<'a>(members: &'a Vec<(String, Json)>, key: &str) -> (r: Result<
    &'a Json,
    DecodeError,
>)
    ensures
        decoded_view(r) == required(members_view(members@), key@),
{
    match find(members, key) {
        Some(value) => Ok(value),
        None => Err(DecodeError::MissingField(key.to_owned())),
    }
}

/// The value of a member that may be left out; `null` counts as left out.
pub fn get_optional<'a>(members: &'a Vec<(String, Json)>, key: &str) -> (r: Option<&'a Json>)
    ensures
        option_view(r) == optional(members_view(members@), key@),
{
    match find(members, key) {
        Some(Json::Null) => None,
        Some(value) => Some(value),
        None => None,
    }
}

/// `value` read as a string for the member `key`.
pub fn read_text(value: &Json, key: &str) -> (r: Result<String, DecodeError>)
    ensures
        decoded_view(r) == as_text(value@, key@),
{
    match value {
        Json::String(text) => Ok(text.clone()),
        _ => Err(DecodeError::InvalidField(key.to_owned())),
    }
}

/// `value` read as a boolean for the member `key`.
pub fn read_bool(value: &Json, key: &str) -> (r: Result<bool, DecodeError>)
    ensures
        decoded_view(r) == as_bool(value@, key@),
{
    match value {
        Json::Bool(b) => Ok(*b),
        _ => Err(DecodeError::InvalidField(key.to_owned())),
    }
}

/// `value` read as a number for the member `key`.
pub fn read_number(value: &Json, key: &str) -> (r: Result<JsonNumber, DecodeError>)
    ensures
        decoded_view(r) == as_number(value@, key@),
{
    match value {
        Json::Number(n) => Ok(n.clone()),
        _ => Err(DecodeError::InvalidField(key.to_owned())),
    }
}

/// `value` read as an integer from `low` to `high` for the member `key`.
pub fn read_integer(value: &Json, key: &str, low: i64, high: u64) -> (r: Result<i128, DecodeError>)
    ensures
        integer_result_view(r) == as_integer(value@, key@, low as int, high as int),
{
    match value {
        Json::Number(JsonNumber::PosInt(u)) => {
            if *u <= high && (low <= 0 || *u >= low as u64) {
                Ok(*u as i128)
            } else {
                Err(DecodeError::InvalidField(key.to_owned()))
            }
        },
        Json::Number(JsonNumber::NegInt(i)) => {
            if low <= *i && (*i < 0 || *i as u64 <= high) {
                Ok(*i as i128)
            } else {
                Err(DecodeError::InvalidField(key.to_owned()))
            }
        },
        _ => Err(DecodeError::InvalidField(key.to_owned())),
    }
}

/// A required member read as a subpack index or another integer of one byte.
pub open spec fn u8_field(members: Members, key: Seq<char>) -> Result<u8, DecodeErrorView> {
    match integer_field(members, key, 0, u8::MAX as int) {
        Ok(i) => Ok(i as u8),
        Err(e) => Err(e),
    }
}

/// A required member read as an unsigned integer of 32 bits.
pub open spec fn u32_field(members: Members, key: Seq<char>) -> Result<u32, DecodeErrorView> {
    match integer_field(members, key, 0, u32::MAX as int) {
        Ok(i) => Ok(i as u32),
        Err(e) => Err(e),
    }
}

/// A required member read as a signed integer of 32 bits.
pub open spec fn i32_field(members: Members, key: Seq<char>) -> Result<i32, DecodeErrorView> {
    match integer_field(members, key, i32::MIN as int, i32::MAX as int) {
        Ok(i) => Ok(i as i32),
        Err(e) => Err(e),
    }
}

/// An optional member read as an unsigned integer of 32 bits.
pub open spec fn optional_u32_field(members: Members, key: Seq<char>) -> Result<
    Option<u32>,
    DecodeErrorView,
> {
    match optional_integer_field(members, key, 0, u32::MAX as int) {
        Ok(Some(i)) => Ok(Some(i as u32)),
        Ok(None) => Ok(None),
        Err(e) => Err(e),
    }
}

/// A required member read as a string.
pub fn read_text_field(members: &Vec<(String, Json)>, key: &str) -> (r: Result<String, DecodeError>)
    ensures
        decoded_view(r) == text_field(members_view(members@), key@),
{
    match get_required(members, key) {
        Ok(value) => read_text(value, key),
        Err(e) => Err(e),
    }
}

/// A required member read as a boolean.
pub fn read_bool_field(members: &Vec<(String, Json)>, key: &str) -> (r: Result<bool, DecodeError>)
    ensures
        decoded_view(r) == bool_field(members_view(members@), key@),
{
    match get_required(members, key) {
        Ok(value) => read_bool(value, key),
        Err(e) => Err(e),
    }
}

/// A required member read as a number.
pub fn read_number_field(members: &Vec<(String, Json)>, key: &str) -> (r: Result<
    JsonNumber,
    DecodeError,
>)
    ensures
        decoded_view(r) == number_field(members_view(members@), key@),
{
    match get_required(members, key) {
        Ok(value) => read_number(value, key),
        Err(e) => Err(e),
    }
}

/// A required member read as an integer of one byte.
pub fn read_u8_field(members: &Vec<(String, Json)>, key: &str) -> (r: Result<u8, DecodeError>)
    ensures
        decoded_view(r) == u8_field(members_view(members@), key@),
{
    match get_required(members, key) {
        Ok(value) => match read_integer(value, key, 0, u8::MAX as u64) {
            Ok(i) => Ok(i as u8),
            Err(e) => Err(e),
        },
        Err(e) => Err(e),
    }
}

/// A required member read as an unsigned integer of 32 bits.
pub fn read_u32_field(members: &Vec<(String, Json)>, key: &str) -> (r: Result<u32, DecodeError>)
    ensures
        decoded_view(r) == u32_field(members_view(members@), key@),
{
    match get_required(members, key) {
        Ok(value) => match read_integer(value, key, 0, u32::MAX as u64) {
            Ok(i) => Ok(i as u32),
            Err(e) => Err(e),
        },
        Err(e) => Err(e),
    }
}

/// A required member read as a signed integer of 32 bits.
pub fn read_i32_field(members: &Vec<(String, Json)>, key: &str) -> (r: Result<i32, DecodeError>)
    ensures
        decoded_view(r) == i32_field(members_view(members@), key@),
{
    match get_required(members, key) {
        Ok(value) => match read_integer(value, key, i32::MIN as i64, i32::MAX as u64) {
            Ok(i) => Ok(i as i32),
            Err(e) => Err(e),
        },
        Err(e) => Err(e),
    }
}

/// An optional member read as a string.
pub fn read_optional_text_field(members: &Vec<(String, Json)>, key: &str) -> (r: Result<
    Option<String>,
    DecodeError,
>)
    ensures
        decoded_option_view(r) == optional_text_field(members_view(members@), key@),
{
    match get_optional(members, key) {
        Some(value) => match read_text(value, key) {
            Ok(text) => Ok(Some(text)),
            Err(e) => Err(e),
        },
        None => Ok(None),
    }
}

/// An optional member read as a boolean.
pub fn read_optional_bool_field(members: &Vec<(String, Json)>, key: &str) -> (r: Result<
    Option<bool>,
    DecodeError,
>)
    ensures
        decoded_option_view(r) == optional_bool_field(members_view(members@), key@),
{
    match get_optional(members, key) {
        Some(value) => match read_bool(value, key) {
            Ok(b) => Ok(Some(b)),
            Err(e) => Err(e),
        },
        None => Ok(None),
    }
}

/// An optional member read as a number.
pub fn read_optional_number_field(members: &Vec<(String, Json)>, key: &str) -> (r: Result<
    Option<JsonNumber>,
    DecodeError,
>)
    ensures
        decoded_option_view(r) == optional_number_field(members_view(members@), key@),
{
    match get_optional(members, key) {
        Some(value) => match read_number(value, key) {
            Ok(n) => Ok(Some(n)),
            Err(e) => Err(e),
        },
        None => Ok(None),
    }
}

/// An optional member read as an unsigned integer of 32 bits.
pub fn read_optional_u32_field(members: &Vec<(String, Json)>, key: &str) -> (r: Result<
    Option<u32>,
    DecodeError,
>)
    ensures
        decoded_option_view(r) == optional_u32_field(members_view(members@), key@),
{
    match get_optional(members, key) {
        Some(value) => match read_integer(value, key, 0, u32::MAX as u64) {
            Ok(i) => Ok(Some(i as u32)),
            Err(e) => Err(e),
        },
        None => Ok(None),
    }
}

/// The items of the list that stands under a required member.
pub open spec fn array_field(members: Members, key: Seq<char>) -> Result<
    Seq<JsonView>,
    DecodeErrorView,
> {
    match required(members, key) {
        Ok(JsonView::Array(items)) => Ok(items),
        Ok(_) => Err(DecodeErrorView::InvalidField(key)),
        Err(e) => Err(e),
    }
}

/// The members of the object that stands under a required member.
pub open spec fn object_field(members: Members, key: Seq<char>) -> Result<Members, DecodeErrorView> {
    match required(members, key) {
        Ok(JsonView::Object(inner)) => Ok(inner),
        Ok(_) => Err(DecodeErrorView::InvalidField(key)),
        Err(e) => Err(e),
    }
}

/// What taking a list's items gave, as the contracts speak of it.
pub open spec fn items_result_view(r: Result<&Vec<Json>, DecodeError>) -> Result<
    Seq<JsonView>,
    DecodeErrorView,
> {
    match r {
        Ok(items) => Ok(crate::json::items_view(items@)),
        Err(e) => Err(e@),
    }
}

/// The items of the list that stands under a required member.
pub fn read_array_field<'a>(members: &'a Vec<(String, Json)>, key: &str) -> (r: Result<
    &'a Vec<Json>,
    DecodeError,
>)
    ensures
        items_result_view(r) == array_field(members_view(members@), key@),
{
    match get_required(members, key) {
        Ok(Json::Array(items)) => {
            proof {
                crate::json::lemma_array_view(*items);
            }
            Ok(items)
        },
        Ok(_) => Err(DecodeError::InvalidField(key.to_owned())),
        Err(e) => Err(e),
    }
}

/// The members of the object that stands under a required member.
pub fn read_object_field<'a>(members: &'a Vec<(String, Json)>, key: &str) -> (r: Result<
    &'a Vec<(String, Json)>,
    DecodeError,
>)
    ensures
        members_result_view(r) == object_field(members_view(members@), key@),
{
    match get_required(members, key) {
        Ok(Json::Object(inner)) => {
            proof {
                crate::json::lemma_object_view(*inner);
            }
            Ok(inner)
        },
        Ok(_) => Err(DecodeError::InvalidField(key.to_owned())),
        Err(e) => Err(e),
    }
}

/// The lists that stand for a list of values, item by item.
pub open spec fn encode_list<T>(items: Seq<T>, encode: spec_fn(T) -> JsonView) -> Seq<JsonView> {
    Seq::new(items.len(), |i: int| encode(items[i]))
}

/// The values that a list of JSON values stands for, read item by item; the
/// first item that cannot be read gives the error.
pub open spec fn decode_list<T>(
    items: Seq<JsonView>,
    decode: spec_fn(JsonView) -> Result<T, DecodeErrorView>,
) -> Result<Seq<T>, DecodeErrorView>
    decreases items.len(),
{
    if items.len() == 0 {
        Ok(Seq::empty())
    } else {
        match decode_list(items.drop_last(), decode) {
            Ok(front) => match decode(items.last()) {
                Ok(item) => Ok(front.push(item)),
                Err(e) => Err(e),
            },
            Err(e) => Err(e),
        }
    }
}

/// A list whose items are each read back from what stands for them is read
/// back whole.
pub proof fn lemma_list_round_trip<T>(
    items: Seq<T>,
    encode: spec_fn(T) -> JsonView,
    decode: spec_fn(JsonView) -> Result<T, DecodeErrorView>,
)
    requires
        forall|i: int| 0 <= i < items.len() ==> decode(encode(#[trigger] items[i])) == read_as(
            items[i],
        ),
    ensures
        decode_list(encode_list(items, encode), decode) == read_as(items),
    decreases items.len(),
{
    let encoded = encode_list(items, encode);
    if items.len() == 0 {
        assert(items =~= Seq::empty());
    } else {
        let front = items.drop_last();
        assert(encoded.drop_last() =~= encode_list(front, encode));
        assert forall|i: int| 0 <= i < front.len() implies decode(encode(#[trigger] front[i]))
            == read_as(front[i]) by {
            assert(front[i] == items[i]);
        }
        lemma_list_round_trip(front, encode, decode);
        assert(encoded.last() == encode(items.last()));
        assert(items.last() == items[items.len() - 1]);
        assert(front.push(items.last()) =~= items);
    }
}

/// Where the item at `at` cannot be read and all before it can, reading
/// the whole list gives that item's error.
pub proof fn lemma_decode_list_fails<T>(
    items: Seq<JsonView>,
    decode: spec_fn(JsonView) -> Result<T, DecodeErrorView>,
    at: int,
)
    requires
        0 <= at < items.len(),
        decode_list(items.take(at), decode) is Ok,
        decode(items[at]) is Err,
    ensures
        decode_list(items, decode) is Err,
        decode_list(items, decode)->Err_0 == decode(items[at])->Err_0,
    decreases items.len(),
{
    if at == items.len() - 1 {
        assert(items.drop_last() =~= items.take(at));
    } else {
        let front = items.drop_last();
        assert(front.take(at) =~= items.take(at));
        assert(front[at] == items[at]);
        lemma_decode_list_fails(front, decode, at);
    }
}

} // verus!
