//! The records that the insert operations send, and their JSON text.
//!
//! A record is written as one JSON object without white space, its fields in
//! the order in which the struct declares them. A field that holds no value is
//! written as `null`.

use vstd::prelude::*;
use crate::json::{encode_string, json_string};

verus! {

/// The payload of an insert into the default namespace.
///
/// `tree` belongs to the shape of the record; the client always sends it
/// empty, and nothing reads it back.
#[derive(Debug, Clone, PartialEq, Eq)]
pub struct KeyValue {
    pub key: String,
    pub value: String,
    pub tree: Option<String>,
}

/// The payload of an operation on a named tree. `value` is empty for an
/// operation that needs none.
#[derive(Debug, Clone, PartialEq, Eq)]
pub struct TreeOperation {
    pub tree: String,
    pub key: String,
    pub value: Option<String>,
}

/// A [`KeyValue`] as plain values.
pub struct KeyValueView {
    pub key: Seq<char>,
    pub value: Seq<char>,
    pub tree: Option<Seq<char>>,
}

/// A [`TreeOperation`] as plain values.
pub struct TreeOperationView {
    pub tree: Seq<char>,
    pub key: Seq<char>,
    pub value: Option<Seq<char>>,
}

/// The characters of an optional string.
pub open spec fn optional_text(text: Option<String>) -> Option<Seq<char>> {
    match text {
        Some(t) => Some(t@),
        None => None,
    }
}

impl View for KeyValue {
    type V = KeyValueView;

    open spec fn view(&self) -> KeyValueView {
        KeyValueView { key: self.key@, value: self.value@, tree: optional_text(self.tree) }
    }
}

impl View for TreeOperation {
    type V = TreeOperationView;

    open spec fn view(&self) -> TreeOperationView {
        TreeOperationView { tree: self.tree@, key: self.key@, value: optional_text(self.value) }
    }
}

/// The JSON text of an optional string: its JSON string, or `null`.
pub open spec fn json_optional_string(text: Option<Seq<char>>) -> Seq<char> {
    match text {
        Some(t) => json_string(t),
        None => "null"@,
    }
}

/// The object `{"key":K,"value":V,"tree":T}`, where `key`, `value` and `tree`
/// are the JSON texts K, V and T.
pub open spec fn key_value_object(key: Seq<char>, value: Seq<char>, tree: Seq<char>) -> Seq<char> {
    "{\"key\":"@ + key + ",\"value\":"@ + value + ",\"tree\":"@ + tree + "}"@
}

/// The object `{"tree":T,"key":K,"value":V}`, where `tree`, `key` and `value`
/// are the JSON texts T, K and V.
pub open spec fn tree_operation_object(tree: Seq<char>, key: Seq<char>, value: Seq<char>) -> Seq<
    char,
> {
    "{\"tree\":"@ + tree + ",\"key\":"@ + key + ",\"value\":"@ + value + "}"@
}

impl KeyValueView {
    /// The JSON text of the record.
    pub open spec fn json(self) -> Seq<char> {
        key_value_object(
            json_string(self.key),
            json_string(self.value),
            json_optional_string(self.tree),
        )
    }
}

impl TreeOperationView {
    /// The JSON text of the record.
    pub open spec fn json(self) -> Seq<char> {
        tree_operation_object(
            json_string(self.tree),
            json_string(self.key),
            json_optional_string(self.value),
        )
    }
}

/// Writes a string as a JSON string.
pub fn json_string_of(text: &str) -> (literal: String)
    ensures
        literal@ == json_string(text@),
{
    encode_string(text).unwrap()
}

/// Writes an optional string as JSON: `null` where there is none.
pub fn json_optional_string_of(text: &Option<String>) -> (literal: String)
    ensures
        literal@ == json_optional_string(optional_text(*text)),
{
    match text {
        Some(t) => json_string_of(t.as_str()),
        None => "null".to_owned(),
    }
}

impl KeyValue {
    /// Puts the JSON texts of the three fields together into one object.
    pub fn object(key: &str, value: &str, tree: &str) -> (text: String)
        ensures
            text@ == key_value_object(key@, value@, tree@),
    {
        let mut text = "{\"key\":".to_owned();
        text.append(key);
        text.append(",\"value\":");
        text.append(value);
        text.append(",\"tree\":");
        text.append(tree);
        text.append("}");
        text
    }

    /// The record as JSON text.
    pub fn to_json(&self) -> (text: String)
        ensures
            text@ == self@.json(),
    {
        let key = json_string_of(self.key.as_str());
        let value = json_string_of(self.value.as_str());
        let tree = json_optional_string_of(&self.tree);
        KeyValue::object(key.as_str(), value.as_str(), tree.as_str())
    }
}

impl TreeOperation {
    /// Puts the JSON texts of the three fields together into one object.
    pub fn object(tree: &str, key: &str, value: &str) -> (text: String)
        ensures
            text@ == tree_operation_object(tree@, key@, value@),
    {
        let mut text = "{\"tree\":".to_owned();
        text.append(tree);
        text.append(",\"key\":");
        text.append(key);
        text.append(",\"value\":");
        text.append(value);
        text.append("}");
        text
    }

    /// The record as JSON text.
    pub fn to_json(&self) -> (text: String)
        ensures
            text@ == self@.json(),
    {
        let tree = json_string_of(self.tree.as_str());
        let key = json_string_of(self.key.as_str());
        let value = json_optional_string_of(&self.value);
        TreeOperation::object(tree.as_str(), key.as_str(), value.as_str())
    }
}

} // verus!
