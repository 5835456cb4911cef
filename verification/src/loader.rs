//! The registry loader: from the text of a registry file to its entries.

use crate::error::{LoadError, ParseError, SchemaError};
use crate::json::{lemma_object_view, names_view, values_view, Json, JsonValue};
use vstd::prelude::*;

verus! {

/// `serde_json::Value`, opaque to the verifier: it is only handed from the
/// parser to [`tree_of`].
#[verifier::external_type_specification]
#[verifier::external_body]
pub struct ExValue(serde_json::Value);

/// `serde_json::Error`, opaque to the verifier: it is only handed from the
/// parser to [`error_text`].
#[verifier::external_type_specification]
#[verifier::external_body]
pub struct ExError(serde_json::Error);

/// What `serde_json::from_str` makes of a text: the value of the one JSON
/// document that the text holds, or nothing where the text is no such document.
pub uninterp spec fn document_of(text: Seq<char>) -> Option<JsonValue>;

/// What a `serde_json::Value` holds, written as a [`JsonValue`]: a number by
/// the text that `serde_json` prints for it, the members of an object in the
/// order in which its map hands them out.
pub uninterp spec fn value_tree(value: serde_json::Value) -> JsonValue;

/// Calls `serde_json::from_str` for a `serde_json::Value`.
///
/// Trusted: the call succeeds exactly on the texts that [`document_of`] gives a
/// value, and what the returned value holds is that value. Nothing is claimed
/// of the error.
#[verifier::external_body]
fn parse_value(text: &str) -> (r: Result<serde_json::Value, serde_json::Error>)
    ensures
        match r {
            Ok(value) => document_of(text@) == Some(value_tree(value)),
            Err(_) => document_of(text@) is None,
        },
{
    serde_json::from_str::<serde_json::Value>(text)
}

/// Copies a `serde_json::Value` into a [`Json`], variant by variant; a number
/// through `serde_json::Number`'s `to_string`, an object through
/// `serde_json::Map::iter`.
///
/// Trusted: the copy holds what the value holds, and no object in it has two
/// members of one name, since a `serde_json::Map` holds each key once.
#[verifier::external_body]
fn tree_of(value: &serde_json::Value) -> (tree: Json)
    ensures
        tree@ == value_tree(*value),
        tree@.unique_names(),
{
    match value {
        serde_json::Value::Null => Json::Null,
        serde_json::Value::Bool(b) => Json::Bool(*b),
        serde_json::Value::Number(n) => Json::Number(n.to_string()),
        serde_json::Value::String(s) => Json::Text(s.clone()),
        serde_json::Value::Array(items) => Json::Array(items.iter().map(tree_of).collect()),
        serde_json::Value::Object(members) => Json::Object(
            members.iter().map(|(name, member)| (name.clone(), tree_of(member))).collect(),
        ),
    }
}

/// Calls `to_string` on a `serde_json::Error`: the parser's own account of
/// what it met and where. Nothing is claimed of the text.
#[verifier::external_body]
fn error_text(error: &serde_json::Error) -> String {
    error.to_string()
}

/// A document registry: its entries by key, in the order of the document.
#[derive(Debug, PartialEq, Eq)]
pub struct Registry {
    pub entries: Vec<(String, Json)>,
}

impl Registry {
    /// The keys of the entries, in order.
    pub open spec fn keys(self) -> Seq<Seq<char>> {
        names_view(self.entries@)
    }

    /// The entries themselves, in order.
    pub open spec fn values(self) -> Seq<JsonValue> {
        values_view(self.entries@)
    }

    /// Whether no key occurs twice, and no object within an entry has two
    /// members of one name. The registry of a parsed document is such a one.
    pub open spec fn well_formed(self) -> bool {
        &&& self.keys().no_duplicates()
        &&& forall|i: int|
            0 <= i < self.values().len() ==> (#[trigger] self.values()[i]).unique_names()
    }

    /// The number of entries.
    pub fn len(&self) -> (n: usize)
        ensures
            n == self.keys().len(),
            n == self.values().len(),
    {
        self.entries.len()
    }

    /// The registry that a document is: the members of its root object.
    ///
    /// Fails, with [`SchemaError::RootNotObject`], exactly where the root is
    /// not an object.
    pub fn from_json(root: Json) -> (r: Result<Registry, SchemaError>)
        ensures
            match r {
                Ok(registry) => {
                    &&& root@ == (JsonValue::Object {
                        names: registry.keys(),
                        values: registry.values(),
                    })
                    &&& root@.unique_names() ==> registry.well_formed()
                },
                Err(e) => e == SchemaError::RootNotObject && !(root@ is Object),
            },
    {
        proof {
            if root is Object {
                lemma_object_view(root);
                let names = names_view(root->Object_0@);
                let values = values_view(root->Object_0@);
                if root@.unique_names() {
                    assert(names.no_duplicates());
                    assert forall|i: int| 0 <= i < values.len() implies (
                    #[trigger] values[i]).unique_names() by {
                        assert(root@->values[i].unique_names());
                    }
                }
            }
        }
        match root {
            Json::Object(members) => Ok(Registry { entries: members }),
            _ => Err(SchemaError::RootNotObject),
        }
    }
}

/// The structured value that a text denotes.
///
/// Succeeds exactly on the texts that are one well-formed JSON document; no
/// schema is asked of the document here. No object of the value has two
/// members of one name.
pub fn parse_json(text: &str) -> (r: Result<Json, ParseError>)
    ensures
        match r {
            Ok(tree) => document_of(text@) == Some(tree@) && tree@.unique_names(),
            Err(_) => document_of(text@) is None,
        },
{
    match parse_value(text) {
        Ok(value) => Ok(tree_of(&value)),
        Err(error) => Err(ParseError { message: error_text(&error) }),
    }
}

/// The registry that a text denotes.
///
/// Fails with [`LoadError::Parse`] exactly where the text is no well-formed
/// document, and with [`LoadError::Schema`] exactly where it is one whose root
/// is not an object. In the registry that is loaded no key occurs twice.
pub fn load_registry(text: &str) -> (r: Result<Registry, LoadError>)
    ensures
        match r {
            Ok(registry) => {
                &&& document_of(text@) == Some(
                    JsonValue::Object { names: registry.keys(), values: registry.values() },
                )
                &&& registry.well_formed()
            },
            Err(LoadError::Parse(_)) => document_of(text@) is None,
            Err(LoadError::Schema(e)) => {
                &&& e == SchemaError::RootNotObject
                &&& document_of(text@) is Some
                &&& !(document_of(text@)->0 is Object)
            },
        },
{
    match parse_json(text) {
        Ok(root) => match Registry::from_json(root) {
            Ok(registry) => Ok(registry),
            Err(e) => Err(LoadError::Schema(e)),
        },
        Err(e) => Err(LoadError::Parse(e)),
    }
}

} // verus!
