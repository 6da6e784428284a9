//! A JSON document of the migration: a folder, a dashboard, a datasource, or
//! a listing of them.

use crate::json::{field, json_of, parse_value, parsed, render_value, rendered, Json};
use vstd::prelude::*;

verus! {

/// A JSON document. Its view is the tree it holds.
#[derive(Debug, PartialEq)]
pub struct Document {
    value: serde_json::Value,
}

impl View for Document {
    type V = Json;

    closed spec fn view(&self) -> Json {
        json_of(self.value)
    }
}

impl Clone for Document {
    fn clone(&self) -> (copy: Document)
        ensures
            copy@ == self@,
    {
        Document { value: self.value.clone() }
    }
}

/// The value stored under `key` in `value`, where `value` is an object that
/// has the key.
pub(crate) fn member<'a>(value: &'a serde_json::Value, key: &str) -> (r: Option<
    &'a serde_json::Value,
>)
    ensures
        match r {
            Some(found) => json_of(*value).member(key@) == Some(json_of(*found)),
            None => json_of(*value).member(key@) is None,
        },
{
    match value.as_object() {
        Some(entries) => field(entries, key),
        None => None,
    }
}

/// The string stored under `key` in `value`.
pub(crate) fn text_in(value: &serde_json::Value, key: &str) -> (r: Option<String>)
    ensures
        match r {
            Some(text) => json_of(*value).text_at(key@) == Some(text@),
            None => json_of(*value).text_at(key@) is None,
        },
{
    match member(value, key) {
        Some(found) => match found.as_str() {
            Some(text) => Some(text.to_owned()),
            None => None,
        },
        None => None,
    }
}

impl Document {
    /// The document that holds `value`.
    pub(crate) fn of(value: serde_json::Value) -> (doc: Document)
        ensures
            doc@ == json_of(value),
    {
        Document { value }
    }

    /// The value that the document holds.
    pub(crate) fn into_value(self) -> (value: serde_json::Value)
        ensures
            json_of(value) == self@,
    {
        self.value
    }

    /// The value that the document holds, borrowed.
    pub(crate) fn value(&self) -> (value: &serde_json::Value)
        ensures
            json_of(*value) == self@,
    {
        &self.value
    }

    /// Reads a document from JSON text; `None` where the text is not JSON.
    pub fn parse(text: &str) -> (r: Option<Document>)
        ensures
            match r {
                Some(doc) => parsed(text@) == Some(doc@),
                None => parsed(text@) is None,
            },
    {
        match parse_value(text) {
            Ok(value) => Some(Document { value }),
            Err(_) => None,
        }
    }

    /// Writes the document as compact JSON text; `None` where it cannot be
    /// written.
    pub fn render(&self) -> (r: Option<String>)
        ensures
            match r {
                Some(text) => rendered(self@) == Some(text@),
                None => rendered(self@) is None,
            },
    {
        match render_value(&self.value) {
            Ok(text) => Some(text),
            Err(_) => None,
        }
    }

    /// Whether the document is a JSON object.
    pub fn is_object(&self) -> (r: bool)
        ensures
            r == (self@ is Object),
    {
        self.value.as_object().is_some()
    }

    /// The string stored under `key`, where the document is an object that
    /// holds a string there.
    pub fn text_at(&self, key: &str) -> (r: Option<String>)
        ensures
            match r {
                Some(text) => self@.text_at(key@) == Some(text@),
                None => self@.text_at(key@) is None,
            },
    {
        text_in(&self.value, key)
    }
}

} // verus!
