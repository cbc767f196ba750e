//! Reading the members of a JSON object, and arrays of records.

use crate::json::{lemma_array_view, member, Json, JsonValue};
use crate::views::result_view;
use vstd::prelude::*;

verus! {

/// Why a document that is not an object cannot be read as a record.
pub open spec fn expected_object() -> Seq<char> {
    "invalid type: expected an object"@
}

/// Why an object without the member `name` cannot be read.
pub open spec fn missing_field(name: Seq<char>) -> Seq<char> {
    "missing field `"@ + name + "`"@
}

/// Why an object whose member `name` is not `expected` cannot be read.
pub open spec fn invalid_field(name: Seq<char>, expected: Seq<char>) -> Seq<char> {
    "invalid type for field `"@ + name + "`: expected "@ + expected
}

/// The member `name` of the object `document`.
pub open spec fn required(document: Json, name: Seq<char>) -> Result<Json, Seq<char>> {
    match document {
        Json::Object(members) => match member(members, name) {
            Some(value) => Ok(value),
            None => Err(missing_field(name)),
        },
        _ => Err(expected_object()),
    }
}

/// The text of the member `name` of the object `document`.
pub open spec fn text_field(document: Json, name: Seq<char>) -> Result<Seq<char>, Seq<char>> {
    match required(document, name) {
        Ok(Json::Text(text)) => Ok(text),
        Ok(_) => Err(invalid_field(name, "a string"@)),
        Err(error) => Err(error),
    }
}

/// The items of the member `name` of the object `document`.
pub open spec fn array_field(document: Json, name: Seq<char>) -> Result<Seq<Json>, Seq<char>> {
    match required(document, name) {
        Ok(Json::Array(items)) => Ok(items),
        Ok(_) => Err(invalid_field(name, "an array"@)),
        Err(error) => Err(error),
    }
}

/// The text of the member `name`, or `default` where the member is missing.
pub open spec fn text_field_or(document: Json, name: Seq<char>, default: Seq<char>) -> Result<
    Seq<char>,
    Seq<char>,
> {
    match document.field(name) {
        None => Ok(default),
        Some(Json::Text(text)) => Ok(text),
        Some(_) => Err(invalid_field(name, "a string"@)),
    }
}

/// The truth value of the member `name`, or `default` where the member is missing.
pub open spec fn bool_field_or(document: Json, name: Seq<char>, default: bool) -> Result<
    bool,
    Seq<char>,
> {
    match document.field(name) {
        None => Ok(default),
        Some(Json::Bool(value)) => Ok(value),
        Some(_) => Err(invalid_field(name, "a boolean"@)),
    }
}

/// The text of the member `name`, or nothing where the member is missing or null.
pub open spec fn optional_text_field(document: Json, name: Seq<char>) -> Result<
    Option<Seq<char>>,
    Seq<char>,
> {
    match document.field(name) {
        None => Ok(None),
        Some(Json::Null) => Ok(None),
        Some(Json::Text(text)) => Ok(Some(text)),
        Some(_) => Err(invalid_field(name, "a string or null"@)),
    }
}

/// Reads every item with `read`, in order: the records, or the error of the
/// first item that cannot be read.
pub open spec fn read_each<T>(
    items: Seq<Json>,
    read: spec_fn(Json) -> Result<T, Seq<char>>,
) -> Result<Seq<T>, Seq<char>>
    decreases items.len(),
{
    if items.len() == 0 {
        Ok(Seq::empty())
    } else {
        match read_each(items.drop_last(), read) {
            Err(error) => Err(error),
            Ok(records) => match read(items.last()) {
                Err(error) => Err(error),
                Ok(record) => Ok(records.push(record)),
            },
        }
    }
}

/// Reading one item more: the records so far and the next one, or the first error.
pub proof fn lemma_read_each_step<T>(
    items: Seq<Json>,
    read: spec_fn(Json) -> Result<T, Seq<char>>,
    n: int,
)
    requires
        0 <= n < items.len(),
    ensures
        read_each(items.take(n + 1), read) == match read_each(items.take(n), read) {
            Err(error) => Err(error),
            Ok(records) => match read(items[n]) {
                Err(error) => Err(error),
                Ok(record) => Ok(records.push(record)),
            },
        },
{
    assert(items.take(n + 1).drop_last() == items.take(n));
}

/// Once an item cannot be read, no longer run of items can be read either.
pub proof fn lemma_read_each_stops<T>(
    items: Seq<Json>,
    read: spec_fn(Json) -> Result<T, Seq<char>>,
    n: int,
)
    requires
        0 <= n <= items.len(),
        read_each(items.take(n), read) is Err,
    ensures
        read_each(items, read) == read_each(items.take(n), read),
    decreases items.len() - n,
{
    if n < items.len() {
        lemma_read_each_step(items, read, n);
        lemma_read_each_stops(items, read, n + 1);
    } else {
        assert(items.take(n) == items);
    }
}

/// Items written from records read back as those records.
pub proof fn lemma_read_each_written<T>(
    records: Seq<T>,
    write: spec_fn(T) -> Json,
    read: spec_fn(Json) -> Result<T, Seq<char>>,
)
    requires
        forall|record: T| #[trigger] read(write(record)) == Ok::<T, Seq<char>>(record),
    ensures
        read_each(records.map_values(write), read) == Ok::<Seq<T>, Seq<char>>(records),
    decreases records.len(),
{
    let items = records.map_values(write);
    if records.len() > 0 {
        lemma_read_each_written(records.drop_last(), write, read);
        assert(items.drop_last() == records.drop_last().map_values(write));
        assert(records.drop_last().push(records.last()) == records);
    } else {
        assert(records == Seq::<T>::empty());
    }
}

/// The description of a missing member.
pub(crate) fn missing_field_text(name: &str) -> (text: String)
    ensures
        text@ == missing_field(name@),
{
    let mut text = String::from_str("missing field `");
    text.append(name);
    text.append("`");
    text
}

/// The description of a member of the wrong type.
pub(crate) fn invalid_field_text(name: &str, expected: &str) -> (text: String)
    ensures
        text@ == invalid_field(name@, expected@),
{
    let mut text = String::from_str("invalid type for field `");
    text.append(name);
    text.append("`: expected ");
    text.append(expected);
    text
}

/// The member `name` of the object `document`.
pub(crate) fn required_member<'a>(document: &'a JsonValue, name: &str) -> (r: Result<
    &'a JsonValue,
    String,
>)
    ensures
        result_view(r) == required(document@, name@),
{
    match document {
        JsonValue::Object(_) => match document.get(name) {
            Some(value) => Ok(value),
            None => Err(missing_field_text(name)),
        },
        _ => Err(String::from_str("invalid type: expected an object")),
    }
}

/// The text of the member `name` of the object `document`.
pub(crate) fn text_member(document: &JsonValue, name: &str) -> (r: Result<String, String>)
    ensures
        result_view(r) == text_field(document@, name@),
{
    match required_member(document, name) {
        Ok(JsonValue::Text(text)) => Ok(text.clone()),
        Ok(_) => Err(invalid_field_text(name, "a string")),
        Err(error) => Err(error),
    }
}

/// The items of the member `name` of the object `document`.
pub(crate) fn array_member<'a>(document: &'a JsonValue, name: &str) -> (r: Result<
    &'a Vec<JsonValue>,
    String,
>)
    ensures
        result_view(r) == array_field(document@, name@),
{
    match required_member(document, name) {
        Ok(JsonValue::Array(items)) => {
            proof {
                lemma_array_view(*items);
            }
            Ok(items)
        },
        Ok(_) => Err(invalid_field_text(name, "an array")),
        Err(error) => Err(error),
    }
}

/// The text of the member `name`, or `default` where the member is missing.
pub(crate) fn text_member_or(document: &JsonValue, name: &str, default: String) -> (r: Result<
    String,
    String,
>)
    ensures
        result_view(r) == text_field_or(document@, name@, default@),
{
    match document.get(name) {
        None => Ok(default),
        Some(JsonValue::Text(text)) => Ok(text.clone()),
        Some(_) => Err(invalid_field_text(name, "a string")),
    }
}

/// The truth value of the member `name`, or `default` where the member is missing.
pub(crate) fn bool_member_or(document: &JsonValue, name: &str, default: bool) -> (r: Result<
    bool,
    String,
>)
    ensures
        result_view(r) == bool_field_or(document@, name@, default),
{
    match document.get(name) {
        None => Ok(default),
        Some(JsonValue::Bool(value)) => Ok(*value),
        Some(_) => Err(invalid_field_text(name, "a boolean")),
    }
}

/// The text of the member `name`, or nothing where the member is missing or null.
pub(crate) fn optional_text_member(document: &JsonValue, name: &str) -> (r: Result<
    Option<String>,
    String,
>)
    ensures
        result_view(r) == optional_text_field(document@, name@),
{
    match document.get(name) {
        None => Ok(None),
        Some(JsonValue::Null) => Ok(None),
        Some(JsonValue::Text(text)) => Ok(Some(text.clone())),
        Some(_) => Err(invalid_field_text(name, "a string or null")),
    }
}

/// Reads every item of an array with `read`, in order, and stops at the first
/// item that cannot be read. `model` says what `read` makes of a document.
pub(crate) fn read_items<T: DeepView>(
    items: &Vec<JsonValue>,
    read: impl Fn(&JsonValue) -> Result<T, String>,
    Ghost(model): Ghost<spec_fn(Json) -> Result<T::V, Seq<char>>>,
) -> (r: Result<Vec<T>, String>)
    requires
        forall|item: &JsonValue| call_requires(read, (item,)),
        forall|item: &JsonValue, out: Result<T, String>|
            call_ensures(read, (item,), out) ==> result_view(out) == model(item@),
    ensures
        result_view(r) == read_each(items.deep_view(), model),
{
    let ghost documents = items.deep_view();
    let mut records: Vec<T> = Vec::new();
    let mut i: usize = 0;
    assert(documents.take(0) == Seq::<Json>::empty());
    assert(records.deep_view() == Seq::<T::V>::empty());
    while i < items.len()
        invariant
            i <= items.len(),
            documents == items.deep_view(),
            forall|item: &JsonValue| call_requires(read, (item,)),
            forall|item: &JsonValue, out: Result<T, String>|
                call_ensures(read, (item,), out) ==> result_view(out) == model(item@),
            read_each(documents.take(i as int), model) == Ok::<Seq<T::V>, Seq<char>>(
                records.deep_view(),
            ),
        decreases items.len() - i,
    {
        proof {
            lemma_read_each_step(documents, model, i as int);
        }
        let ghost before = records.deep_view();
        match read(&items[i]) {
            Ok(record) => {
                records.push(record);
                assert(records.deep_view() == before.push(record.deep_view()));
            },
            Err(error) => {
                proof {
                    lemma_read_each_stops(documents, model, i as int + 1);
                }
                return Err(error);
            },
        }
        i = i + 1;
    }
    assert(documents.take(i as int) == documents);
    Ok(records)
}

/// Writes every record as a document with `write`, in order. `model` says
/// what `write` makes of a record.
pub(crate) fn write_items<T: DeepView>(
    records: &Vec<T>,
    write: impl Fn(&T) -> JsonValue,
    Ghost(model): Ghost<spec_fn(T::V) -> Json>,
) -> (items: Vec<JsonValue>)
    requires
        forall|record: &T| call_requires(write, (record,)),
        forall|record: &T, out: JsonValue|
            call_ensures(write, (record,), out) ==> out@ == model(record.deep_view()),
    ensures
        items.deep_view() == records.deep_view().map_values(model),
{
    let mut items: Vec<JsonValue> = Vec::new();
    let mut i: usize = 0;
    while i < records.len()
        invariant
            i <= records.len(),
            items.len() == i,
            forall|record: &T| call_requires(write, (record,)),
            forall|record: &T, out: JsonValue|
                call_ensures(write, (record,), out) ==> out@ == model(record.deep_view()),
            forall|k: int| 0 <= k < i ==> #[trigger] items[k]@ == model(records[k].deep_view()),
        decreases records.len() - i,
    {
        items.push(write(&records[i]));
        i = i + 1;
    }
    assert(items.deep_view() =~= records.deep_view().map_values(model));
    items
}

} // verus!
