//! Reading and rewriting a JSON tree, as mathematics: the vocabulary that the
//! contracts of the crate use to say what a document holds.

use crate::json::Json;
use vstd::prelude::*;

verus! {

impl Json {
    /// The value stored under `key`, where this is an object that has the key.
    pub open spec fn member(self, key: Seq<char>) -> Option<Json> {
        match self {
            Json::Object(entries) => if entries.contains_key(key) {
                Some(entries[key])
            } else {
                None
            },
            _ => None,
        }
    }

    /// The content, where this is a string.
    pub open spec fn text(self) -> Option<Seq<char>> {
        match self {
            Json::Text(content) => Some(content),
            _ => None,
        }
    }

    /// The string stored under `key`, where this is an object that holds a
    /// string there.
    pub open spec fn text_at(self, key: Seq<char>) -> Option<Seq<char>> {
        match self.member(key) {
            Some(value) => value.text(),
            None => None,
        }
    }

    /// This object without `key`; any other value as it is.
    pub open spec fn without(self, key: Seq<char>) -> Json {
        match self {
            Json::Object(entries) => Json::Object(entries.remove(key)),
            _ => self,
        }
    }

    /// This object with `value` under `key`; any other value as it is.
    pub open spec fn with(self, key: Seq<char>, value: Json) -> Json {
        match self {
            Json::Object(entries) => Json::Object(entries.insert(key, value)),
            _ => self,
        }
    }

    /// The elements, where this is an array; no elements otherwise.
    pub open spec fn items(self) -> Seq<Json> {
        match self {
            Json::List(items) => items,
            _ => Seq::empty(),
        }
    }
}

} // verus!
