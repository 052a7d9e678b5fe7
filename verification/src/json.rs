//! JSON values as this library builds them, and their encoding by `serde_json`.

use vstd::prelude::*;
use crate::error::IpcError;

verus! {

/// A JSON value whose numbers are integers.
#[derive(Debug)]
pub enum Json {
    Null,
    Bool(bool),
    Number(i64),
    String(String),
    Array(Vec<Json>),
    Object(Vec<(String, Json)>),
}

/// The mathematical value of a [`Json`].
pub enum JsonView {
    Null,
    Bool(bool),
    Number(int),
    String(Seq<char>),
    Array(Seq<JsonView>),
    Object(Seq<(Seq<char>, JsonView)>),
}

/// The mathematical value of `json`.
pub open spec fn json_view(json: Json) -> JsonView
    decreases json,
{
    match json {
        Json::Null => JsonView::Null,
        Json::Bool(b) => JsonView::Bool(b),
        Json::Number(n) => JsonView::Number(n as int),
        Json::String(s) => JsonView::String(s@),
        Json::Array(items) => JsonView::Array(
            Seq::new(
                items@.len(),
                |i: int|
                    if 0 <= i < items@.len() {
                        json_view(items@[i])
                    } else {
                        JsonView::Null
                    },
            ),
        ),
        Json::Object(members) => JsonView::Object(
            Seq::new(
                members@.len(),
                |i: int|
                    if 0 <= i < members@.len() {
                        (members@[i].0@, json_view(members@[i].1))
                    } else {
                        (Seq::empty(), JsonView::Null)
                    },
            ),
        ),
    }
}

impl View for Json {
    type V = JsonView;

    open spec fn view(&self) -> JsonView {
        json_view(*self)
    }
}

/// The members that a list of name and value pairs stands for.
pub open spec fn members_view(members: Seq<(String, Json)>) -> Seq<(Seq<char>, JsonView)> {
    Seq::new(members.len(), |i: int| (members[i].0@, members[i].1@))
}

/// The values that a list of values stands for.
pub open spec fn items_view(items: Seq<Json>) -> Seq<JsonView> {
    Seq::new(items.len(), |i: int| items[i]@)
}

/// The member `name` of an object if it has a value, and no member if not.
pub open spec fn member(name: Seq<char>, value: Option<JsonView>) -> Seq<(Seq<char>, JsonView)> {
    match value {
        Some(v) => seq![(name, v)],
        None => Seq::empty(),
    }
}

/// The member `name` with a string for its value, if there is one.
pub open spec fn text_member(name: Seq<char>, text: Option<Seq<char>>) -> Seq<
    (Seq<char>, JsonView),
> {
    member(
        name,
        match text {
            Some(t) => Some(JsonView::String(t)),
            None => None,
        },
    )
}

/// The member `name` with a number for its value, if there is one.
pub open spec fn number_member(name: Seq<char>, number: Option<i64>) -> Seq<
    (Seq<char>, JsonView),
> {
    member(
        name,
        match number {
            Some(n) => Some(JsonView::Number(n as int)),
            None => None,
        },
    )
}

impl JsonView {
    /// The value of the first member called `name`, where `self` is an
    /// object that has one.
    pub open spec fn field(self, name: Seq<char>) -> Option<JsonView> {
        match self {
            JsonView::Object(members) => first_named(members, name),
            _ => None,
        }
    }
}

/// The value of the first of `members` that is called `name`.
pub open spec fn first_named(members: Seq<(Seq<char>, JsonView)>, name: Seq<char>) -> Option<
    JsonView,
>
    decreases members.len(),
{
    if members.len() == 0 {
        None
    } else if members[0].0 == name {
        Some(members[0].1)
    } else {
        first_named(members.drop_first(), name)
    }
}

/// `serde_json::Value`, of which nothing is known here but that it exists:
/// it is handed on to the caller as it came from the parser.
#[verifier::external_type_specification]
#[verifier::external_body]
pub struct ExValue(serde_json::Value);

/// `serde_json::Error`, of which nothing is known here: every such error
/// is reported as a serialization error.
#[verifier::external_type_specification]
#[verifier::external_body]
pub struct ExJsonError(serde_json::Error);

/// The compact JSON text, as UTF-8, that `serde_json` writes for a value.
///
/// The members of an object are an ordered list in the value. In the text
/// they stand sorted by name, and of members with one name only the last
/// is written: the order of the value is not the order of the text.
pub uninterp spec fn json_bytes(value: JsonView) -> Seq<u8>;

/// The `serde_json::Value` with the same content as `json`. The members of
/// an object go into a `serde_json::Map` by `collect`.
#[verifier::external_body]
fn to_value(json: &Json) -> serde_json::Value {
    match json {
        Json::Null => serde_json::Value::Null,
        Json::Bool(b) => serde_json::Value::Bool(*b),
        Json::Number(n) => serde_json::Value::from(*n),
        Json::String(s) => serde_json::Value::String(s.clone()),
        Json::Array(items) => serde_json::Value::Array(items.iter().map(to_value).collect()),
        Json::Object(members) => serde_json::Value::Object(
            members.iter().map(|m| (m.0.clone(), to_value(&m.1))).collect(),
        ),
    }
}

/// Calls `serde_json::to_vec` on the `serde_json::Value` for `json`. What it
/// writes depends on the value alone, and is known here by name only. The
/// call succeeds: the serializer fails only where its writer fails or where
/// a value is no JSON (a key that is no string, a number that is not
/// finite), and the writer here is a `Vec<u8>` and the value is made of
/// strings, integers, arrays and objects with string keys.
#[verifier::external_body]
fn serialize(json: &Json) -> (r: Result<Vec<u8>, serde_json::Error>)
    ensures
        r is Ok,
        r->Ok_0@ == json_bytes(json@),
{
    serde_json::to_vec(&to_value(json))
}

/// The value that `serde_json` reads from the JSON text `text`, and `None`
/// where it refuses the text.
pub uninterp spec fn json_value(text: Seq<u8>) -> Option<serde_json::Value>;

/// Calls `serde_json::from_slice` for a `serde_json::Value`. What it reads
/// depends on the text alone, and is known here by name only.
#[verifier::external_body]
fn deserialize(text: &[u8]) -> (r: Result<serde_json::Value, serde_json::Error>)
    ensures
        r matches Ok(value) ==> json_value(text@) == Some(value),
        r is Err ==> json_value(text@) is None,
{
    serde_json::from_slice(text)
}

/// Reads the payload of a frame as JSON. What is not JSON text is refused.
pub fn parse_payload(text: &[u8]) -> (r: Result<serde_json::Value, IpcError>)
    ensures
        match json_value(text@) {
            Some(value) => r == Ok::<serde_json::Value, IpcError>(value),
            None => r == Err::<serde_json::Value, IpcError>(IpcError::Serialization),
        },
{
    match deserialize(text) {
        Ok(value) => Ok(value),
        Err(_) => Err(IpcError::Serialization),
    }
}

impl Json {
    /// The JSON string `text`.
    pub fn text(text: &str) -> (json: Json)
        ensures
            json@ == JsonView::String(text@),
    {
        Json::String(text.to_owned())
    }

    /// The JSON number `number`.
    pub fn number(number: i64) -> (json: Json)
        ensures
            json@ == JsonView::Number(number as int),
    {
        Json::Number(number)
    }

    /// The JSON array of `items`.
    pub fn array(items: Vec<Json>) -> (json: Json)
        ensures
            json@ == JsonView::Array(items_view(items@)),
    {
        proof {
            lemma_array_view(items);
        }
        Json::Array(items)
    }

    /// The JSON object with `members`.
    pub fn object(members: Vec<(String, Json)>) -> (json: Json)
        ensures
            json@ == JsonView::Object(members_view(members@)),
    {
        proof {
            lemma_object_view(members);
        }
        Json::Object(members)
    }

    /// The compact JSON text of the value, as UTF-8. Every value has one.
    pub fn to_bytes(&self) -> (r: Result<Vec<u8>, IpcError>)
        ensures
            r is Ok,
            r->Ok_0@ == json_bytes(self@),
    {
        match serialize(self) {
            Ok(bytes) => Ok(bytes),
            Err(_) => Err(IpcError::Serialization),
        }
    }
}

/// Adds the member `name` to `members` if it has a value.
pub fn push_member(members: &mut Vec<(String, Json)>, name: &str, value: Option<Json>)
    ensures
        members_view(final(members)@) == members_view(old(members)@) + member(
            name@,
            match value {
                Some(json) => Some(json@),
                None => None,
            },
        ),
{
    match value {
        Some(json) => {
            members.push((name.to_owned(), json));
            assert(members_view(members@) =~= members_view(old(members)@) + seq![(name@, json@)]);
        },
        None => {
            assert(members_view(members@) =~= members_view(old(members)@) + Seq::empty());
        },
    }
}

/// The view of an object is made of the views of its members.
pub proof fn lemma_object_view(members: Vec<(String, Json)>)
    ensures
        Json::Object(members)@ == JsonView::Object(members_view(members@)),
{
    let object = Json::Object(members);
    assert(object@->Object_0 =~= members_view(members@));
}

/// The view of an array is made of the views of its items.
pub proof fn lemma_array_view(items: Vec<Json>)
    ensures
        Json::Array(items)@ == JsonView::Array(items_view(items@)),
{
    assert(Json::Array(items)@->Array_0 =~= items_view(items@));
}

/// Looking a name up in a list that starts with an optional member: the
/// member answers if it is there and has the name, and the rest of the list
/// answers if not.
pub proof fn lemma_first_named_member(
    name: Seq<char>,
    value: Option<JsonView>,
    rest: Seq<(Seq<char>, JsonView)>,
    wanted: Seq<char>,
)
    ensures
        first_named(member(name, value) + rest, wanted) == if name == wanted && value is Some {
            value
        } else {
            first_named(rest, wanted)
        },
{
    let members = member(name, value) + rest;
    match value {
        Some(v) => {
            assert(members[0] == (name, v));
            assert(members.drop_first() =~= rest);
        },
        None => {
            assert(members =~= rest);
        },
    }
}

/// Looking a name up in two lists in a row: the first list answers if it
/// can, and the second one if not.
pub proof fn lemma_first_named_concat(
    front: Seq<(Seq<char>, JsonView)>,
    back: Seq<(Seq<char>, JsonView)>,
    wanted: Seq<char>,
)
    ensures
        first_named(front + back, wanted) == if first_named(front, wanted) is Some {
            first_named(front, wanted)
        } else {
            first_named(back, wanted)
        },
    decreases front.len(),
{
    if front.len() == 0 {
        assert(front + back =~= back);
    } else {
        assert((front + back)[0] == front[0]);
        assert((front + back).drop_first() =~= front.drop_first() + back);
        lemma_first_named_concat(front.drop_first(), back, wanted);
    }
}

/// Looking a name up in an optional member alone.
pub proof fn lemma_first_named_alone(name: Seq<char>, value: Option<JsonView>, wanted: Seq<char>)
    ensures
        first_named(member(name, value), wanted) == if name == wanted {
            value
        } else {
            None
        },
{
    lemma_first_named_member(name, value, Seq::empty(), wanted);
    assert(member(name, value) + Seq::empty() =~= member(name, value));
}

} // verus!
