//! Reading JSON documents.
//!
//! Documents are parsed by `serde_json`. A parsed document is opaque to the
//! verifier, so the contracts here speak of the tree of values that it
//! holds, [`json_tree`], and of the tree that a text parses to,
//! [`json_parse`]. Nothing in this module is proved: each function states what
//! `serde_json` documents of the call it makes.

use vstd::prelude::*;

verus! {

/// A parsed JSON document.
#[verifier::external_type_specification]
#[verifier::external_body]
pub struct ExValue(serde_json::Value);

/// A JSON value as a mathematical tree. Numbers are not told apart: nothing
/// here reads one.
pub enum JsonTree {
    Null,
    Bool(bool),
    Number,
    Text(Seq<char>),
    Array(Seq<JsonTree>),
    Object(Map<Seq<char>, JsonTree>),
}

impl JsonTree {
    /// The member `key` of an object; `Null` where the value is no object or
    /// has no such member.
    pub open spec fn member(self, key: Seq<char>) -> JsonTree {
        match self {
            JsonTree::Object(members) => if members.contains_key(key) {
                members[key]
            } else {
                JsonTree::Null
            },
            _ => JsonTree::Null,
        }
    }

    /// The element at `index` of an array; `Null` where the value is no array
    /// or is too short.
    pub open spec fn element(self, index: int) -> JsonTree {
        match self {
            JsonTree::Array(elements) => if 0 <= index < elements.len() {
                elements[index]
            } else {
                JsonTree::Null
            },
            _ => JsonTree::Null,
        }
    }

    /// Whether the value is an object that has a member `key`.
    pub open spec fn has_member(self, key: Seq<char>) -> bool {
        self matches JsonTree::Object(members) && members.contains_key(key)
    }

    /// The names of the members of an object.
    pub open spec fn member_names(self) -> Option<Set<Seq<char>>> {
        match self {
            JsonTree::Object(members) => Some(members.dom()),
            _ => None,
        }
    }

    /// The text of a string value.
    pub open spec fn text(self) -> Option<Seq<char>> {
        match self {
            JsonTree::Text(text) => Some(text),
            _ => None,
        }
    }

    /// The elements of an array.
    pub open spec fn elements(self) -> Option<Seq<JsonTree>> {
        match self {
            JsonTree::Array(elements) => Some(elements),
            _ => None,
        }
    }
}

/// The tree of values that a parsed document holds.
pub uninterp spec fn json_tree(value: serde_json::Value) -> JsonTree;

/// What `serde_json` makes of a text: the tree of the document it parses to,
/// or the text of the error it reports.
pub uninterp spec fn json_parse(bytes: Seq<u8>) -> Result<JsonTree, Seq<char>>;

/// The trees of a sequence of parsed documents.
pub open spec fn json_trees(values: Seq<serde_json::Value>) -> Seq<JsonTree> {
    Seq::new(values.len(), |i: int| json_tree(values[i]))
}

/// Parses a JSON text.
///
/// Trusted: calls `serde_json::from_slice` for a `Value`, and renders the
/// error, where there is one, with its `Display`. The contract only names
/// the outcome: it is [`json_parse`] of the bytes.
#[verifier::external_body]
pub(crate) fn parse_document(bytes: &[u8]) -> (parsed: Result<serde_json::Value, String>)
    ensures
        match parsed {
            Ok(value) => json_parse(bytes@) == Ok::<JsonTree, Seq<char>>(json_tree(value)),
            Err(message) => json_parse(bytes@) == Err::<JsonTree, Seq<char>>(message@),
        },
{
    match serde_json::from_slice::<serde_json::Value>(bytes) {
        Ok(value) => Ok(value),
        Err(error) => Err(error.to_string()),
    }
}

/// The member `key` of a document.
///
/// Trusted: indexes a `serde_json::Value` by a string, which gives the
/// member of that name where the value is an object that has one, and the
/// null value in every other case.
#[verifier::external_body]
pub(crate) fn member<'a>(value: &'a serde_json::Value, key: &str) -> (found: &'a serde_json::Value)
    ensures
        json_tree(*found) == json_tree(*value).member(key@),
{
    &value[key]
}

/// The element at `index` of a document.
///
/// Trusted: indexes a `serde_json::Value` by a number, which gives the
/// element at that place where the value is an array that is long enough,
/// and the null value in every other case.
#[verifier::external_body]
pub(crate) fn element<'a>(value: &'a serde_json::Value, index: usize) -> (found:
    &'a serde_json::Value)
    ensures
        json_tree(*found) == json_tree(*value).element(index as int),
{
    &value[index]
}

/// The text of a document that is a string.
///
/// Trusted: calls `serde_json::Value::as_str`, which gives the string where
/// the value is one, and nothing otherwise.
#[verifier::external_body]
pub(crate) fn text<'a>(value: &'a serde_json::Value) -> (found: Option<&'a str>)
    ensures
        match found {
            Some(text) => json_tree(*value).text() == Some(text@),
            None => json_tree(*value).text() is None,
        },
{
    value.as_str()
}

/// The elements of a document that is an array.
///
/// Trusted: calls `serde_json::Value::as_array`, which gives the vector of
/// elements where the value is an array, and nothing otherwise.
#[verifier::external_body]
pub(crate) fn elements<'a>(value: &'a serde_json::Value) -> (found: Option<
    &'a Vec<serde_json::Value>,
>)
    ensures
        match found {
            Some(items) => json_tree(*value).elements() == Some(json_trees(items@)),
            None => json_tree(*value).elements() is None,
        },
{
    value.as_array()
}

/// The member `key` of a document, if it has one.
///
/// Trusted: calls `serde_json::Value::get` with a string, which gives the
/// member of that name where the value is an object that has one, and
/// nothing otherwise.
#[verifier::external_body]
pub(crate) fn lookup<'a>(value: &'a serde_json::Value, key: &str) -> (found: Option<
    &'a serde_json::Value,
>)
    ensures
        match found {
            Some(member) => json_tree(*value).has_member(key@) && json_tree(*member) == json_tree(
                *value,
            ).member(key@),
            None => !json_tree(*value).has_member(key@),
        },
{
    value.get(key)
}

/// The names of the members of a document that is an object.
///
/// Trusted: calls `serde_json::Value::as_object`, which gives the map of
/// members where the value is an object and nothing otherwise, and walks
/// `serde_json::Map::keys`, which gives each name of the map once. The order
/// depends on how `serde_json` was built and is not stated.
#[verifier::external_body]
pub(crate) fn member_names(value: &serde_json::Value) -> (names: Option<Vec<String>>)
    ensures
        match names {
            Some(names) => json_tree(*value).member_names() == Some(names.deep_view().to_set())
                && names.deep_view().no_duplicates(),
            None => json_tree(*value).member_names() is None,
        },
{
    value.as_object().map(|members| members.keys().cloned().collect())
}

} // verus!
