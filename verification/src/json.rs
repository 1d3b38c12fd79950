//! JSON values as plain data, with their text form read and written by
//! `serde_json`.

use serde_json::Value;
use vstd::prelude::*;

use crate::text::str_eq;
use crate::views::option_view;

verus! {

/// A JSON number.
///
/// Integers are held by value. Any other number is held as the decimal text
/// that stands for it on the wire, so that no value of it is ever rounded
/// here.
#[derive(Debug, PartialEq, Eq)]
pub enum JsonNumber {
    /// An integer from zero to `u64::MAX`.
    PosInt(u64),
    /// An integer below zero. A value from zero up is written like the
    /// `PosInt` of that value.
    NegInt(i64),
    /// A number with a fraction or an exponent, as decimal text: `12.5`,
    /// `-0.25`, `1e-7`. A text that is no JSON number is written as `null`.
    Decimal(String),
}

/// What a [`JsonNumber`] holds.
pub enum JsonNumberView {
    PosInt(u64),
    NegInt(i64),
    Decimal(Seq<char>),
}

impl View for JsonNumber {
    type V = JsonNumberView;

    open spec fn view(&self) -> JsonNumberView {
        match self {
            JsonNumber::PosInt(u) => JsonNumberView::PosInt(*u),
            JsonNumber::NegInt(i) => JsonNumberView::NegInt(*i),
            JsonNumber::Decimal(t) => JsonNumberView::Decimal(t@),
        }
    }
}

impl Clone for JsonNumber {
    fn clone(&self) -> (r: Self)
        ensures
            r@ == self@,
    {
        match self {
            JsonNumber::PosInt(u) => JsonNumber::PosInt(*u),
            JsonNumber::NegInt(i) => JsonNumber::NegInt(*i),
            JsonNumber::Decimal(t) => JsonNumber::Decimal(t.clone()),
        }
    }
}

/// A JSON value. The members of an object keep the order they were given in.
#[derive(Debug, PartialEq, Eq)]
pub enum Json {
    Null,
    Bool(bool),
    Number(JsonNumber),
    String(String),
    Array(Vec<Json>),
    Object(Vec<(String, Json)>),
}

/// What a [`Json`] holds.
pub enum JsonView {
    Null,
    Bool(bool),
    Number(JsonNumberView),
    String(Seq<char>),
    Array(Seq<JsonView>),
    Object(Seq<(Seq<char>, JsonView)>),
}

/// The value that a tree stands for.
pub open spec fn json_view(j: Json) -> JsonView
    decreases j,
{
    match j {
        Json::Null => JsonView::Null,
        Json::Bool(b) => JsonView::Bool(b),
        Json::Number(n) => JsonView::Number(n@),
        Json::String(s) => JsonView::String(s@),
        Json::Array(items) => JsonView::Array(
            Seq::new(
                items@.len(),
                |i: int|
                    if 0 <= i < items@.len() {
                        json_view(items@[i])
                    } else {
                        JsonView::Null
                    },
            ),
        ),
        Json::Object(members) => JsonView::Object(
            Seq::new(
                members@.len(),
                |i: int|
                    if 0 <= i < members@.len() {
                        (members@[i].0@, json_view(members@[i].1))
                    } else {
                        (Seq::empty(), JsonView::Null)
                    },
            ),
        ),
    }
}

impl View for Json {
    type V = JsonView;

    open spec fn view(&self) -> JsonView {
        json_view(*self)
    }
}

/// The views of the members of an object, in order.
pub open spec fn members_view(members: Seq<(String, Json)>) -> Seq<(Seq<char>, JsonView)> {
    Seq::new(members.len(), |i: int| (members[i].0@, members[i].1@))
}

/// The views of the items of an array, in order.
pub open spec fn items_view(items: Seq<Json>) -> Seq<JsonView> {
    Seq::new(items.len(), |i: int| items[i]@)
}

/// An array's view is the array of its items' views.
pub proof fn lemma_array_view(items: Vec<Json>)
    ensures
        Json::Array(items)@ == JsonView::Array(items_view(items@)),
{
    assert(Json::Array(items)@->Array_0 =~= items_view(items@));
}

/// An object's view is the object of its members' views.
pub proof fn lemma_object_view(members: Vec<(String, Json)>)
    ensures
        Json::Object(members)@ == JsonView::Object(members_view(members@)),
{
    assert(Json::Object(members)@->Object_0 =~= members_view(members@));
}

/// Copies the members of an object.
pub fn clone_members(members: &Vec<(String, Json)>) -> (r: Vec<(String, Json)>)
    ensures
        members_view(r@) == members_view(members@),
    decreases members, 0int,
{
    let mut out: Vec<(String, Json)> = Vec::new();
    let mut i: usize = 0;
    while i < members.len()
        invariant
            i <= members.len(),
            out@.len() == i,
            forall|k: int| 0 <= k < i ==> out@[k].0@ == members@[k].0@ && out@[k].1@ == members@[k].1@,
        decreases members.len() - i,
    {
        let key = members[i].0.clone();
        let value = members[i].1.clone();
        out.push((key, value));
        i += 1;
    }
    assert(members_view(out@) =~= members_view(members@));
    out
}

/// Copies the items of an array.
pub fn clone_items(items: &Vec<Json>) -> (r: Vec<Json>)
    ensures
        items_view(r@) == items_view(items@),
    decreases items, 0int,
{
    let mut out: Vec<Json> = Vec::new();
    let mut i: usize = 0;
    while i < items.len()
        invariant
            i <= items.len(),
            out@.len() == i,
            forall|k: int| 0 <= k < i ==> out@[k]@ == items@[k]@,
        decreases items.len() - i,
    {
        out.push(items[i].clone());
        i += 1;
    }
    assert(items_view(out@) =~= items_view(items@));
    out
}

impl Clone for Json {
    fn clone(&self) -> (r: Self)
        ensures
            r@ == self@,
        decreases self, 1int,
    {
        match self {
            Json::Null => Json::Null,
            Json::Bool(b) => Json::Bool(*b),
            Json::Number(n) => Json::Number(n.clone()),
            Json::String(s) => Json::String(s.clone()),
            Json::Array(items) => {
                let copy = clone_items(items);
                proof {
                    lemma_array_view(copy);
                    lemma_array_view(*items);
                }
                Json::Array(copy)
            },
            Json::Object(members) => {
                let copy = clone_members(members);
                proof {
                    lemma_object_view(copy);
                    lemma_object_view(*members);
                }
                Json::Object(copy)
            },
        }
    }
}

/// The members of an object, as the contracts speak of them: each a name and
/// a value, in order.
pub type Members = Seq<(Seq<char>, JsonView)>;

/// The value of the first member named `key`, if there is one.
pub open spec fn lookup(members: Members, key: Seq<char>) -> Option<JsonView>
    decreases members.len(),
{
    if members.len() == 0 {
        None
    } else if members[0].0 == key {
        Some(members[0].1)
    } else {
        lookup(members.drop_first(), key)
    }
}

/// Whether some member is named `key`.
pub open spec fn has_key(members: Members, key: Seq<char>) -> bool {
    exists|i: int| 0 <= i < members.len() && #[trigger] members[i].0 == key
}

/// Whether no two members share a name.
pub open spec fn distinct_keys(members: Members) -> bool {
    forall|i: int, j: int|
        0 <= i < members.len() && 0 <= j < members.len() && i != j ==> #[trigger] members[i].0
            != #[trigger] members[j].0
}

/// The members after `(key, value)` was appended where a value is given.
pub open spec fn push_optional(members: Members, key: Seq<char>, value: Option<JsonView>) -> Members {
    match value {
        Some(v) => members.push((key, v)),
        None => members,
    }
}

/// Looking a name up among no members finds nothing.
pub broadcast proof fn lemma_lookup_empty(key: Seq<char>)
    ensures
        #[trigger] lookup(Seq::empty(), key) == None::<JsonView>,
{
}

/// What a lookup finds once `member` was appended: what it found before,
/// or else the new member's value where that has the name.
pub open spec fn lookup_after_push(
    members: Members,
    member: (Seq<char>, JsonView),
    key: Seq<char>,
) -> Option<JsonView> {
    match lookup(members, key) {
        Some(v) => Some(v),
        None => if member.0 == key {
            Some(member.1)
        } else {
            None
        },
    }
}

/// Looking a name up after a member was appended goes by the members before
/// it, then by the new one.
pub broadcast proof fn lemma_lookup_push(members: Members, member: (Seq<char>, JsonView), key: Seq<char>)
    ensures
        #[trigger] lookup(members.push(member), key) == lookup_after_push(members, member, key),
    decreases members.len(),
{
    let after = members.push(member);
    if members.len() == 0 {
        assert(after.drop_first() =~= Seq::empty());
    } else {
        assert(after[0] == members[0]);
        assert(after.drop_first() =~= members.drop_first().push(member));
        lemma_lookup_push(members.drop_first(), member, key);
    }
}

/// The lemmas by which a lookup in a members list that was built by
/// appending is worked out.
pub broadcast group group_lookup {
    lemma_lookup_empty,
    lemma_lookup_push,
}

/// What `lookup` finds is the value of the first member of that name.
pub proof fn lemma_lookup_first(members: Members, key: Seq<char>)
    ensures
        lookup(members, key) matches Some(v) ==> exists|i: int|
            0 <= i < members.len() && #[trigger] members[i] == (key, v) && forall|j: int|
                0 <= j < i ==> (#[trigger] members[j]).0 != key,
        lookup(members, key) is None ==> !has_key(members, key),
    decreases members.len(),
{
    if members.len() == 0 {
    } else if members[0].0 == key {
        assert(members[0] == (key, members[0].1));
    } else {
        let rest = members.drop_first();
        lemma_lookup_first(rest, key);
        match lookup(rest, key) {
            Some(v) => {
                let i = choose|i: int|
                    0 <= i < rest.len() && #[trigger] rest[i] == (key, v) && forall|j: int|
                        0 <= j < i ==> (#[trigger] rest[j]).0 != key;
                assert(members[i + 1] == rest[i]);
                assert forall|j: int| 0 <= j < i + 1 implies (#[trigger] members[j]).0 != key by {
                    if j > 0 {
                        assert(members[j] == rest[j - 1]);
                    }
                }
            },
            None => {
                assert forall|i: int| 0 <= i < members.len() implies #[trigger] members[i].0
                    != key by {
                    if i > 0 {
                        assert(members[i] == rest[i - 1]);
                    }
                }
            },
        }
    }
}

/// Where a member is named `key` and none before it is, `lookup` finds its
/// value.
pub proof fn lemma_lookup_at(members: Members, key: Seq<char>, i: int)
    requires
        0 <= i < members.len(),
        members[i].0 == key,
        forall|j: int| 0 <= j < i ==> (#[trigger] members[j]).0 != key,
    ensures
        lookup(members, key) == Some(members[i].1),
    decreases i,
{
    if i > 0 {
        let rest = members.drop_first();
        assert(members[0].0 != key);
        assert(rest[i - 1] == members[i]);
        assert forall|j: int| 0 <= j < i - 1 implies (#[trigger] rest[j]).0 != key by {
            assert(rest[j] == members[j + 1]);
        }
        lemma_lookup_at(rest, key, i - 1);
    }
}

/// Where no member is named `key`, `lookup` finds nothing.
pub proof fn lemma_lookup_none(members: Members, key: Seq<char>)
    requires
        !has_key(members, key),
    ensures
        lookup(members, key) is None,
{
    lemma_lookup_first(members, key);
    if let Some(v) = lookup(members, key) {
        let i = choose|i: int| 0 <= i < members.len() && #[trigger] members[i] == (key, v);
        assert(members[i].0 == key);
    }
}

/// The views of a members list one longer are those of the list and of
/// the new member.
pub proof fn lemma_members_view_push(members: Seq<(String, Json)>, key: String, value: Json)
    ensures
        members_view(members.push((key, value))) == members_view(members).push((key@, value@)),
{
    assert(members_view(members.push((key, value))) =~= members_view(members).push(
        (key@, value@),
    ));
}

/// Appends the member `(key, value)`.
pub fn push_member(members: &mut Vec<(String, Json)>, key: &str, value: Json)
    ensures
        members_view(final(members)@) == members_view(old(members)@).push((key@, value@)),
{
    let name = key.to_owned();
    proof {
        lemma_members_view_push(members@, name, value);
    }
    members.push((name, value));
}

/// Appends the member `(key, value)` where a value is given.
pub fn push_optional_member(members: &mut Vec<(String, Json)>, key: &str, value: Option<Json>)
    ensures
        members_view(final(members)@) == push_optional(
            members_view(old(members)@),
            key@,
            option_view(value),
        ),
{
    match value {
        Some(v) => push_member(members, key, v),
        None => {},
    }
}

/// The value of the first member named `key`, if there is one.
pub fn find<'a>(members: &'a Vec<(String, Json)>, key: &str) -> (r: Option<&'a Json>)
    ensures
        option_view(r) == lookup(members_view(members@), key@),
{
    let ghost all = members_view(members@);
    let mut i: usize = 0;
    assert(all.skip(0) =~= all);
    while i < members.len()
        invariant
            i <= members.len(),
            all == members_view(members@),
            lookup(all, key@) == lookup(all.skip(i as int), key@),
        decreases members.len() - i,
    {
        proof {
            assert(all.skip(i as int)[0] == all[i as int]);
            assert(all.skip(i as int).drop_first() =~= all.skip(i + 1));
        }
        if str_eq(members[i].0.as_str(), key) {
            return Some(&members[i].1);
        }
        i += 1;
    }
    assert(all.skip(i as int) =~= Seq::empty());
    None
}

/// `serde_json::Value`, the form in which `serde_json` takes and gives JSON
/// values. Nothing is said of what a value of it holds.
#[verifier::external_type_specification]
#[verifier::external_body]
pub struct ExValue(serde_json::Value);

/// The compact JSON text that `serde_json` writes for a value, if it writes
/// one.
///
/// The members of an object are written in their order, a name that occurs
/// again with the value of its last occurrence in the place of its first. A
/// decimal is written as the number that `serde_json` reads from its text,
/// and as `null` where it reads none.
pub uninterp spec fn json_text(j: JsonView) -> Option<Seq<char>>;

/// What `serde_json` reads from a text: the value that the whole text
/// stands for, or its message where the text is not JSON.
pub uninterp spec fn json_parse(text: Seq<char>) -> Result<JsonView, Seq<char>>;

/// What reading a text gave, as the contracts speak of it.
pub open spec fn parsed_view(r: Result<Json, String>) -> Result<JsonView, Seq<char>> {
    match r {
        Ok(j) => Ok(j@),
        Err(message) => Err(message@),
    }
}

/// Converts a value for `print_json`: the `serde_json::Value` of the same
/// kind with the same content, built with `Value::from` for the integers,
/// `str::parse` into `serde_json::Number` for a decimal, and `collect` into
/// `serde_json::Map` for the members of an object. Nothing is claimed of it
/// here; what is claimed of the text that comes of it stands at
/// `print_json`.
#[verifier::external_body]
fn to_value(j: &Json) -> Value {
    match j {
        Json::Null => Value::Null,
        Json::Bool(b) => Value::Bool(*b),
        Json::Number(JsonNumber::PosInt(u)) => Value::from(*u),
        Json::Number(JsonNumber::NegInt(i)) => Value::from(*i),
        Json::Number(JsonNumber::Decimal(t)) => t.parse().map_or(Value::Null, Value::Number),
        Json::String(s) => Value::String(s.clone()),
        Json::Array(a) => Value::Array(a.iter().map(to_value).collect()),
        Json::Object(o) => Value::Object(o.iter().map(|m| (m.0.clone(), to_value(&m.1))).collect()),
    }
}

/// Converts a value for `read_json`: the value of the same kind with the
/// same content as a `serde_json::Value`. An integer that `Number::as_u64`
/// or `Number::as_i64` gives is held by value, any other number as the text
/// that `Number`'s `to_string` gives. Nothing is claimed of it here; what
/// is claimed of the value that comes of it stands at `read_json`.
#[verifier::external_body]
fn from_value(v: Value) -> Json {
    match v {
        Value::Null => Json::Null,
        Value::Bool(b) => Json::Bool(b),
        Value::Number(n) => Json::Number(match (n.as_u64(), n.as_i64()) {
            (Some(u), _) => JsonNumber::PosInt(u),
            (_, Some(i)) => JsonNumber::NegInt(i),
            _ => JsonNumber::Decimal(n.to_string()),
        }),
        Value::String(s) => Json::String(s),
        Value::Array(a) => Json::Array(a.into_iter().map(from_value).collect()),
        Value::Object(o) => Json::Object(o.into_iter().map(|m| (m.0, from_value(m.1))).collect()),
    }
}

/// Writes a value as compact JSON text with `serde_json::to_string`.
///
/// Claimed and not proved: the text is a function of the value alone, the
/// one that `json_text` names; and it holds no line feed, since
/// `serde_json`'s compact form has no white space between tokens and writes
/// a line feed inside a string as the two characters `\n`.
#[verifier::external_body]
fn print_json(j: &Json) -> (text: Option<String>)
    ensures
        option_view(text) == json_text(j@),
        text matches Some(t) ==> !t@.contains('\n'),
{
    serde_json::to_string(&to_value(j)).ok()
}

/// Reads JSON text with `serde_json::from_str`.
///
/// Claimed and not proved: the outcome is a function of the text alone, the
/// one that `json_parse` names: the value that the whole text stands for,
/// or the message of `serde_json`'s error.
#[verifier::external_body]
fn read_json(text: &str) -> (r: Result<Json, String>)
    ensures
        parsed_view(r) == json_parse(text@),
{
    match serde_json::from_str::<Value>(text) {
        Ok(v) => Ok(from_value(v)),
        Err(e) => Err(e.to_string()),
    }
}

impl Json {
    /// The value as compact JSON text on one line, if `serde_json` writes
    /// it.
    pub fn to_text(&self) -> (text: Option<String>)
        ensures
            option_view(text) == json_text(self@),
            text matches Some(t) ==> !t@.contains('\n'),
    {
        print_json(self)
    }

    /// Reads a value from JSON text; where the text is not JSON, gives the
    /// parser's message.
    pub fn parse(text: &str) -> (r: Result<Json, String>)
        ensures
            parsed_view(r) == json_parse(text@),
    {
        read_json(text)
    }
}

} // verus!
