//! What can go wrong with a registry and its entries.

use vstd::prelude::*;

verus! {

/// What is wrong with the shape of a registry or of one of its entries.
#[derive(Debug, Clone, Copy, PartialEq, Eq)]
pub enum SchemaError {
    /// The document is not an object of entries.
    RootNotObject,
    /// The entry has no `path` member.
    PathMissing,
    /// The entry's `path` member is not an array.
    PathNotArray,
    /// The item at `index` of the entry's `path` is not a string.
    SegmentNotText { index: usize },
}

impl SchemaError {
    /// In words, what is wrong.
    pub open spec fn message_text(self) -> Seq<char> {
        match self {
            SchemaError::RootNotObject => "the registry is not an object of entries"@,
            SchemaError::PathMissing => "the entry has no `path`"@,
            SchemaError::PathNotArray => "the entry's `path` is not an array"@,
            SchemaError::SegmentNotText { .. } => "an item of the entry's `path` is not a string"@,
        }
    }

    /// In words, what is wrong.
    pub fn message(&self) -> (text: &'static str)
        ensures
            text@ == self.message_text(),
    {
        match self {
            SchemaError::RootNotObject => "the registry is not an object of entries",
            SchemaError::PathMissing => "the entry has no `path`",
            SchemaError::PathNotArray => "the entry's `path` is not an array",
            SchemaError::SegmentNotText { .. } => "an item of the entry's `path` is not a string",
        }
    }
}

/// A text that is not one well-formed JSON document.
#[derive(Debug, PartialEq, Eq)]
pub struct ParseError {
    /// The parser's account of what it met and where.
    pub message: String,
}

/// Why a registry could not be loaded.
#[derive(Debug, PartialEq, Eq)]
pub enum LoadError {
    /// The text is not one well-formed JSON document.
    Parse(ParseError),
    /// The document is well-formed but is not an object of entries.
    Schema(SchemaError),
}

} // verus!
