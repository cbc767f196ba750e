//! JSON documents as plain values, read and written by `serde_json`.

use crate::views::result_view;
use serde_json::Value;
use vstd::prelude::*;

verus! {

/// Mathematical model of a JSON document. An object is the sequence of its
/// members in document order.
pub ghost enum Json {
    Null,
    Bool(bool),
    /// A number, by its numeral.
    Number(Seq<char>),
    Text(Seq<char>),
    Array(Seq<Json>),
    Object(Seq<(Seq<char>, Json)>),
}

/// The value of the first member of `members` that is named `key`.
pub open spec fn member(members: Seq<(Seq<char>, Json)>, key: Seq<char>) -> Option<Json>
    decreases members.len(),
{
    if members.len() == 0 {
        None
    } else if members[0].0 == key {
        Some(members[0].1)
    } else {
        member(members.drop_first(), key)
    }
}

impl Json {
    /// The value of the member named `key`, where this is an object that has one.
    pub open spec fn field(self, key: Seq<char>) -> Option<Json> {
        match self {
            Json::Object(members) => member(members, key),
            _ => None,
        }
    }
}

/// A JSON document held as plain values.
#[derive(Debug, PartialEq, Eq)]
pub enum JsonValue {
    Null,
    Bool(bool),
    /// A number, by its numeral.
    Number(String),
    Text(String),
    Array(Vec<JsonValue>),
    Object(Vec<(String, JsonValue)>),
}

/// The document that `value` holds.
pub open spec fn document(value: JsonValue) -> Json
    decreases value,
{
    match value {
        JsonValue::Null => Json::Null,
        JsonValue::Bool(b) => Json::Bool(b),
        JsonValue::Number(n) => Json::Number(n@),
        JsonValue::Text(s) => Json::Text(s@),
        JsonValue::Array(items) => Json::Array(
            Seq::new(
                items.len() as nat,
                |i: int|
                    if 0 <= i < items.len() {
                        document(items[i])
                    } else {
                        Json::Null
                    },
            ),
        ),
        JsonValue::Object(members) => Json::Object(
            Seq::new(
                members.len() as nat,
                |i: int|
                    if 0 <= i < members.len() {
                        (members[i].0@, document(members[i].1))
                    } else {
                        (Seq::empty(), Json::Null)
                    },
            ),
        ),
    }
}

impl View for JsonValue {
    type V = Json;

    open spec fn view(&self) -> Json {
        document(*self)
    }
}

impl DeepView for JsonValue {
    type V = Json;

    open spec fn deep_view(&self) -> Json {
        self@
    }
}

/// An array holds the documents of its items, in order.
pub proof fn lemma_array_view(items: Vec<JsonValue>)
    ensures
        JsonValue::Array(items)@ == Json::Array(items.deep_view()),
{
    assert(JsonValue::Array(items)@->Array_0 =~= items.deep_view());
}

/// An object holds its members, in order.
pub proof fn lemma_object_view(members: Vec<(String, JsonValue)>)
    ensures
        JsonValue::Object(members)@ == Json::Object(members.deep_view()),
{
    assert(JsonValue::Object(members)@->Object_0 =~= members.deep_view());
}

/// Skipping a member that is not named `key` does not change what is found.
proof fn lemma_member_skip(members: Seq<(Seq<char>, Json)>, key: Seq<char>, n: int)
    requires
        0 <= n < members.len(),
        members[n].0 != key,
    ensures
        member(members.skip(n), key) == member(members.skip(n + 1), key),
{
    assert(members.skip(n).drop_first() == members.skip(n + 1));
}

impl JsonValue {
    /// The value of the first member named `key`, where this is an object
    /// that has one.
    pub fn get(&self, key: &str) -> (found: Option<&JsonValue>)
        ensures
            found.deep_view() == self@.field(key@),
    {
        match self {
            JsonValue::Object(members) => {
                let wanted = key.to_owned();
                let ghost model = self@->Object_0;
                let mut i: usize = 0;
                assert(model.skip(0) == model);
                while i < members.len()
                    invariant
                        i <= members.len(),
                        wanted@ == key@,
                        self@ == Json::Object(model),
                        model.len() == members.len(),
                        forall|k: int|
                            0 <= k < members.len() ==> #[trigger] model[k] == (
                                members[k].0@,
                                members[k].1@,
                            ),
                        member(model, key@) == member(model.skip(i as int), key@),
                    decreases members.len() - i,
                {
                    if members[i].0 == wanted {
                        assert(model.skip(i as int)[0] == model[i as int]);
                        return Some(&members[i].1);
                    }
                    proof {
                        lemma_member_skip(model, key@, i as int);
                    }
                    i = i + 1;
                }
                None
            },
            _ => None,
        }
    }
}

/// `serde_json::Value`, the document type of `serde_json`. Nothing is said of
/// what a value holds: it only passes between the conversions below and the
/// calls that read and write text.
#[verifier::external_type_specification]
#[verifier::external_body]
pub struct ExValue(serde_json::Value);

/// What `serde_json::from_str` reads from a text: the document, or the
/// description of what is wrong with the text.
pub uninterp spec fn parsed_document(text: Seq<char>) -> Result<Json, Seq<char>>;

/// What `serde_json::to_string` writes for a document: its text on one
/// line, or the description of what cannot be written.
pub uninterp spec fn compact_text(document: Json) -> Result<Seq<char>, Seq<char>>;

/// What `serde_json::to_string_pretty` writes for a document: its indented
/// text, or the description of what cannot be written.
pub uninterp spec fn pretty_text(document: Json) -> Result<Seq<char>, Seq<char>>;

/// Moves a `serde_json::Value` into a [`JsonValue`], variant by variant; a
/// number is kept as the numeral that `serde_json` prints for it. Nothing is
/// claimed of the result: [`read_document`] names what it returns.
#[verifier::external_body]
fn from_value(value: Value) -> JsonValue {
    match value {
        Value::Null => JsonValue::Null,
        Value::Bool(b) => JsonValue::Bool(b),
        Value::Number(n) => JsonValue::Number(n.to_string()),
        Value::String(s) => JsonValue::Text(s),
        Value::Array(items) => JsonValue::Array(items.into_iter().map(from_value).collect()),
        Value::Object(members) => JsonValue::Object(
            members.into_iter().map(|(key, member)| (key, from_value(member))).collect(),
        ),
    }
}

/// Copies a [`JsonValue`] into a `serde_json::Value`, variant by variant; a
/// number is read back from its numeral with `serde_json::from_str`, and the
/// description of its error is handed on. Nothing is claimed of the result:
/// [`write_compact`] and [`write_pretty`] name what they return.
#[verifier::external_body]
fn to_value(value: &JsonValue) -> Result<Value, String> {
    Ok(match value {
        JsonValue::Null => Value::Null,
        JsonValue::Bool(b) => Value::Bool(*b),
        JsonValue::Number(n) => Value::Number(
            serde_json::from_str(n).map_err(|error| error.to_string())?,
        ),
        JsonValue::Text(s) => Value::String(s.clone()),
        JsonValue::Array(items) => Value::Array(
            items.iter().map(to_value).collect::<Result<_, _>>()?,
        ),
        JsonValue::Object(members) => Value::Object(
            members.iter().map(|(k, m)| Ok((k.clone(), to_value(m)?))).collect::<Result<_, String>>()?,
        ),
    })
}

/// Calls `serde_json::from_str` for a `serde_json::Value`. The contract gives
/// the result the name [`parsed_document`]: the same text always reads as the
/// same document, or fails with the same description.
#[verifier::external_body]
fn read_document(text: &str) -> (r: Result<JsonValue, String>)
    ensures
        result_view(r) == parsed_document(text@),
{
    serde_json::from_str(text).map(from_value).map_err(|error| error.to_string())
}

/// Calls `serde_json::to_string` on the `serde_json::Value` of `document`. The
/// contract gives the result the name [`compact_text`].
#[verifier::external_body]
fn write_compact(document: &JsonValue) -> (r: Result<String, String>)
    ensures
        result_view(r) == compact_text(document@),
{
    serde_json::to_string(&to_value(document)?).map_err(|error| error.to_string())
}

/// Calls `serde_json::to_string_pretty` on the `serde_json::Value` of
/// `document`. The contract gives the result the name [`pretty_text`].
#[verifier::external_body]
fn write_pretty(document: &JsonValue) -> (r: Result<String, String>)
    ensures
        result_view(r) == pretty_text(document@),
{
    serde_json::to_string_pretty(&to_value(document)?).map_err(|error| error.to_string())
}

impl JsonValue {
    /// Reads a JSON text.
    pub fn parse(text: &str) -> (r: Result<JsonValue, String>)
        ensures
            result_view(r) == parsed_document(text@),
    {
        read_document(text)
    }

    /// Writes the document on one line.
    pub fn to_text(&self) -> (r: Result<String, String>)
        ensures
            result_view(r) == compact_text(self@),
    {
        write_compact(self)
    }

    /// Writes the document over several lines, indented by two spaces a level.
    pub fn to_pretty_text(&self) -> (r: Result<String, String>)
        ensures
            result_view(r) == pretty_text(self@),
    {
        write_pretty(self)
    }
}

} // verus!
