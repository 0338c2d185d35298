//! Records as they are read from JSON, and the columns they turn into.
//!
//! A record is one JSON object: an `IndexMap` from keys to JSON values that
//! keeps the order in which the keys were read.  The layout works on
//! [`Column`]s, so every value is first turned into its display text.

use vstd::prelude::*;
use indexmap::IndexMap;
use serde_json::Value;
use crate::failure::Failure;
use crate::layout::{Column, ColumnView};

verus! {

/// `serde_json::Value`, a JSON value of any kind, as an opaque type.
#[verifier::external_type_specification]
#[verifier::external_body]
pub struct ExValue(serde_json::Value);

/// `serde_json::Error`, the error of reading JSON, as an opaque type.
#[verifier::external_type_specification]
#[verifier::external_body]
pub struct ExJsonError(serde_json::Error);

/// `indexmap::IndexMap`, a map that keeps its entries in insertion order,
/// as an opaque type.
#[verifier::external_type_specification]
#[verifier::external_body]
#[verifier::reject_recursive_types(K)]
#[verifier::reject_recursive_types(V)]
#[verifier::reject_recursive_types(S)]
pub struct ExIndexMap<K, V, S>(indexmap::IndexMap<K, V, S>);

/// A JSON value, as far as its display goes.
pub enum JsonValue {
    /// `null`.
    Null,
    /// `true` or `false`.
    Bool(bool),
    /// A number, in its canonical text.
    Number(String),
    /// A string, unescaped.
    Text(String),
    /// An array or an object, in its compact JSON text.
    Composite(String),
}

/// The mathematical model of [`JsonValue`].
pub enum JsonValueView {
    Null,
    Bool(bool),
    Number(Seq<char>),
    Text(Seq<char>),
    Composite(Seq<char>),
}

impl View for JsonValue {
    type V = JsonValueView;

    open spec fn view(&self) -> JsonValueView {
        match self {
            JsonValue::Null => JsonValueView::Null,
            JsonValue::Bool(b) => JsonValueView::Bool(*b),
            JsonValue::Number(text) => JsonValueView::Number(text@),
            JsonValue::Text(text) => JsonValueView::Text(text@),
            JsonValue::Composite(text) => JsonValueView::Composite(text@),
        }
    }
}

/// The display text of a JSON value: a string is shown as it is, without
/// quotes; a number, an array and an object by their JSON text; `null` and
/// the booleans by their names.
pub open spec fn display_text(value: JsonValueView) -> Seq<char> {
    match value {
        JsonValueView::Null => seq!['n', 'u', 'l', 'l'],
        JsonValueView::Bool(b) => if b {
            seq!['t', 'r', 'u', 'e']
        } else {
            seq!['f', 'a', 'l', 's', 'e']
        },
        JsonValueView::Number(text) => text,
        JsonValueView::Text(text) => text,
        JsonValueView::Composite(text) => text,
    }
}

/// Turns a JSON value into its display text.
pub fn stringify_value(value: &JsonValue) -> (out: String)
    ensures
        out@ == display_text(value@),
{
    proof {
        reveal_strlit("null");
        reveal_strlit("true");
        reveal_strlit("false");
    }
    match value {
        JsonValue::Null => String::from_str("null"),
        JsonValue::Bool(b) => if *b {
            String::from_str("true")
        } else {
            String::from_str("false")
        },
        JsonValue::Number(text) => text.clone(),
        JsonValue::Text(text) => text.clone(),
        JsonValue::Composite(text) => text.clone(),
    }
}

/// The entries of a record, in the order in which its keys were first
/// inserted: each key with its value.
pub uninterp spec fn record_entries(record: IndexMap<String, Value>) -> Seq<
    (Seq<char>, JsonValueView),
>;

/// The compact JSON text of a record: what `serde_json::to_string` gives
/// for it.
pub uninterp spec fn record_json(record: IndexMap<String, Value>) -> Seq<char>;

/// The mathematical model of a record.
pub struct RecordView {
    pub entries: Seq<(Seq<char>, JsonValueView)>,
    pub json: Seq<char>,
}

/// The model of `record`.
pub open spec fn record_view(record: IndexMap<String, Value>) -> RecordView {
    RecordView { entries: record_entries(record), json: record_json(record) }
}

/// The models of `records`, in order.
pub open spec fn record_views(records: Seq<IndexMap<String, Value>>) -> Seq<RecordView> {
    Seq::new(records.len(), |i: int| record_view(records[i]))
}

/// What `serde_json::from_str` makes of `input` when it is asked for a list
/// of records: the records, or `None` where it reports an error.
pub uninterp spec fn parsed_records(input: Seq<char>) -> Option<Seq<RecordView>>;

/// Calls `serde_json::from_str` for a `Vec` of `IndexMap`s from `String` to
/// `Value`.  The outcome depends on the input text alone.  It is an error
/// unless the text is one JSON array whose elements are all objects.
#[verifier::external_body]
fn from_json(input: &str) -> (parsed: Result<Vec<IndexMap<String, Value>>, serde_json::Error>)
    ensures
        match parsed {
            Ok(records) => parsed_records(input@) == Some(record_views(records@)),
            Err(_) => parsed_records(input@) is None,
        },
{
    serde_json::from_str(input)
}

/// Formats a `serde_json::Error` by its `Display`.  Nothing is claimed of
/// the wording.
#[verifier::external_body]
fn json_reason(error: &serde_json::Error) -> (text: String) {
    error.to_string()
}

/// Calls `serde_json::to_string` on a record.  With string keys and JSON
/// values it does not fail; an empty text would stand for a failure.
#[verifier::external_body]
fn to_json(record: &IndexMap<String, Value>) -> (json: String)
    ensures
        json@ == record_json(*record),
{
    serde_json::to_string(record).unwrap_or_default()
}

/// Calls `IndexMap::len`: the number of entries.
#[verifier::external_body]
fn entry_count(record: &IndexMap<String, Value>) -> (count: usize)
    ensures
        count == record_entries(*record).len(),
{
    record.len()
}

/// Calls `IndexMap::get_index`, which hands out the entries by position in
/// insertion order, and copies the entry out.  A number is rendered by
/// `serde_json::Number`'s `Display`, an array or an object by
/// `serde_json::Value`'s, which writes compact JSON.
#[verifier::external_body]
fn entry_at(record: &IndexMap<String, Value>, index: usize) -> (entry: (String, JsonValue))
    requires
        index < record_entries(*record).len(),
    ensures
        entry.0@ == record_entries(*record)[index as int].0,
        entry.1@ == record_entries(*record)[index as int].1,
{
    let (key, value) = record.get_index(index).unwrap();
    let value = match value {
        Value::Null => JsonValue::Null,
        Value::Bool(b) => JsonValue::Bool(*b),
        Value::Number(number) => JsonValue::Number(number.to_string()),
        Value::String(text) => JsonValue::Text(text.clone()),
        other => JsonValue::Composite(other.to_string()),
    };
    (key.clone(), value)
}

/// The columns of a record with the entries `entries`: one for each entry,
/// in order, with the value as its display text.
pub open spec fn entry_columns(entries: Seq<(Seq<char>, JsonValueView)>) -> Seq<ColumnView> {
    Seq::new(
        entries.len(),
        |i: int| ColumnView { key: entries[i].0, value: display_text(entries[i].1) },
    )
}

/// Reads a list of records from JSON text.  A text that is no JSON list of
/// objects is a [`Failure::InvalidJson`].
pub fn parse_records(input: &str) -> (parsed: Result<Vec<IndexMap<String, Value>>, Failure>)
    ensures
        match parsed {
            Ok(records) => parsed_records(input@) == Some(record_views(records@)),
            Err(e) => parsed_records(input@) is None && e is InvalidJson,
        },
{
    match from_json(input) {
        Ok(records) => Ok(records),
        Err(error) => Err(Failure::InvalidJson(json_reason(&error))),
    }
}

/// The serialized text of a record, which the filter is matched against.
pub fn record_text(record: &IndexMap<String, Value>) -> (json: String)
    ensures
        json@ == record_json(*record),
{
    to_json(record)
}

/// The columns of `record`, in the order of its keys.
pub fn columns_of(record: &IndexMap<String, Value>) -> (columns: Vec<Column>)
    ensures
        columns.deep_view() == entry_columns(record_entries(*record)),
{
    let count = entry_count(record);
    let mut columns: Vec<Column> = Vec::new();
    let mut i: usize = 0;
    while i < count
        invariant
            i <= count,
            count == record_entries(*record).len(),
            columns.len() == i,
            forall|j: int|
                0 <= j < i ==> (#[trigger] columns[j])@ == entry_columns(
                    record_entries(*record),
                )[j],
        decreases count - i,
    {
        let (key, value) = entry_at(record, i);
        let text = stringify_value(&value);
        columns.push(Column { key, value: text });
        i = i + 1;
    }
    columns
}

} // verus!
