//! A structured value: the tree that a JSON text denotes.

use crate::text::text_eq;
use vstd::prelude::*;

verus! {

/// A structured value held in memory.
///
/// A number is kept as the decimal text that stands for it. The members of an
/// object are kept in the order of the document; where two members share a
/// name, a lookup by name finds the first.
#[derive(Debug, PartialEq, Eq)]
pub enum Json {
    Null,
    Bool(bool),
    Number(String),
    Text(String),
    Array(Vec<Json>),
    Object(Vec<(String, Json)>),
}

/// The mathematical value of a [`Json`]: strings are sequences of characters,
/// an array is the sequence of its items, an object the sequence of its
/// members' names beside the sequence of their values.
pub enum JsonValue {
    Null,
    Bool(bool),
    Number(Seq<char>),
    Text(Seq<char>),
    Array(Seq<JsonValue>),
    Object { names: Seq<Seq<char>>, values: Seq<JsonValue> },
}

impl View for Json {
    type V = JsonValue;

    open spec fn view(&self) -> JsonValue
        decreases self,
    {
        match self {
            Json::Null => JsonValue::Null,
            Json::Bool(b) => JsonValue::Bool(*b),
            Json::Number(n) => JsonValue::Number(n@),
            Json::Text(s) => JsonValue::Text(s@),
            Json::Array(items) => JsonValue::Array(
                Seq::new(
                    items.len() as nat,
                    |i: int|
                        if 0 <= i < items.len() {
                            items[i]@
                        } else {
                            JsonValue::Null
                        },
                ),
            ),
            Json::Object(members) => JsonValue::Object {
                names: Seq::new(members.len() as nat, |i: int| members[i].0@),
                values: Seq::new(
                    members.len() as nat,
                    |i: int|
                        if 0 <= i < members.len() {
                            members[i].1@
                        } else {
                            JsonValue::Null
                        },
                ),
            },
        }
    }
}

/// The values of a run of structured values, one by one.
pub open spec fn items_view(items: Seq<Json>) -> Seq<JsonValue> {
    Seq::new(items.len(), |i: int| items[i]@)
}

/// The names of a run of members, one by one.
pub open spec fn names_view(members: Seq<(String, Json)>) -> Seq<Seq<char>> {
    Seq::new(members.len(), |i: int| members[i].0@)
}

/// The values of a run of members, one by one.
pub open spec fn values_view(members: Seq<(String, Json)>) -> Seq<JsonValue> {
    Seq::new(members.len(), |i: int| members[i].1@)
}

/// Whether `i` is the first place at which `names` holds `key`.
pub open spec fn is_first_named(names: Seq<Seq<char>>, key: Seq<char>, i: int) -> bool {
    &&& 0 <= i < names.len()
    &&& names[i] == key
    &&& forall|j: int| 0 <= j < i ==> #[trigger] names[j] != key
}

/// The value beside the first of `names` that is `key`, if there is one.
pub open spec fn lookup(names: Seq<Seq<char>>, values: Seq<JsonValue>, key: Seq<char>) -> Option<
    JsonValue,
> {
    if exists|i: int| is_first_named(names, key, i) {
        Some(values[choose|i: int| is_first_named(names, key, i)])
    } else {
        None
    }
}

impl JsonValue {
    /// What an object holds under `key`; nothing for a value that is no object
    /// or has no member of that name.
    pub open spec fn member(self, key: Seq<char>) -> Option<JsonValue> {
        match self {
            JsonValue::Object { names, values } => lookup(names, values, key),
            _ => None,
        }
    }

    /// The characters of a string value.
    pub open spec fn as_text(self) -> Option<Seq<char>> {
        match self {
            JsonValue::Text(s) => Some(s),
            _ => None,
        }
    }

    /// The items of an array value.
    pub open spec fn as_array(self) -> Option<Seq<JsonValue>> {
        match self {
            JsonValue::Array(items) => Some(items),
            _ => None,
        }
    }

    /// Whether no object in the value, at any depth, has two members of one
    /// name. The value of a parsed document is such a value.
    pub open spec fn unique_names(self) -> bool
        decreases self,
    {
        match self {
            JsonValue::Array(items) => forall|i: int|
                0 <= i < items.len() ==> (#[trigger] items[i]).unique_names(),
            JsonValue::Object { names, values } => {
                &&& names.no_duplicates()
                &&& forall|i: int| 0 <= i < values.len() ==> (#[trigger] values[i]).unique_names()
            },
            _ => true,
        }
    }
}

/// In an object without two members of one name, a lookup by a member's name
/// gives that member's value: the member found is the only one of that name.
pub proof fn lemma_lookup_unique(names: Seq<Seq<char>>, values: Seq<JsonValue>, i: int)
    requires
        names.no_duplicates(),
        0 <= i < names.len(),
    ensures
        lookup(names, values, names[i]) == Some(values[i]),
{
    assert(is_first_named(names, names[i], i));
    lemma_lookup_found(names, values, names[i], i);
}

/// At most one place is the first at which `names` holds `key`.
pub proof fn lemma_first_named_unique(names: Seq<Seq<char>>, key: Seq<char>, i: int, j: int)
    requires
        is_first_named(names, key, i),
        is_first_named(names, key, j),
    ensures
        i == j,
{
    if i < j {
        assert(names[i] != key);
    } else if j < i {
        assert(names[j] != key);
    }
}

/// A lookup gives the value at `i` where `i` is the first place of `key`.
pub proof fn lemma_lookup_found(
    names: Seq<Seq<char>>,
    values: Seq<JsonValue>,
    key: Seq<char>,
    i: int,
)
    requires
        is_first_named(names, key, i),
    ensures
        lookup(names, values, key) == Some(values[i]),
{
    let k = choose|k: int| is_first_named(names, key, k);
    lemma_first_named_unique(names, key, i, k);
}

/// A lookup gives nothing where no name is `key`.
pub proof fn lemma_lookup_absent(names: Seq<Seq<char>>, values: Seq<JsonValue>, key: Seq<char>)
    requires
        forall|j: int| 0 <= j < names.len() ==> #[trigger] names[j] != key,
    ensures
        lookup(names, values, key) is None,
{
    if exists|i: int| is_first_named(names, key, i) {
        let k = choose|k: int| is_first_named(names, key, k);
        assert(names[k] == key);
    }
}

/// The value of an object is made of the names and the values of its members.
pub proof fn lemma_object_view(j: Json)
    requires
        j is Object,
    ensures
        j@ == (JsonValue::Object {
            names: names_view(j->Object_0@),
            values: values_view(j->Object_0@),
        }),
{
    let members = j->Object_0;
    assert(j@->names =~= names_view(members@));
    assert(j@->values =~= values_view(members@));
}

/// The value of an array is made of the values of its items.
pub proof fn lemma_array_view(j: Json)
    requires
        j is Array,
    ensures
        j@ == JsonValue::Array(items_view(j->Array_0@)),
{
    assert(j@->Array_0 =~= items_view(j->Array_0@));
}

impl Json {
    /// The value under `key`, as [`JsonValue::member`] defines it.
    pub fn member(&self, key: &str) -> (found: Option<&Json>)
        ensures
            match found {
                Some(j) => self@.member(key@) == Some(j@),
                None => self@.member(key@) is None,
            },
    {
        match self {
            Json::Object(members) => {
                proof {
                    lemma_object_view(*self);
                }
                let mut i: usize = 0;
                while i < members.len()
                    invariant
                        i <= members.len(),
                        self@ == (JsonValue::Object {
                            names: names_view(members@),
                            values: values_view(members@),
                        }),
                        forall|j: int| 0 <= j < i ==> #[trigger] names_view(members@)[j] != key@,
                    decreases members.len() - i,
                {
                    if text_eq(members[i].0.as_str(), key) {
                        proof {
                            lemma_lookup_found(
                                names_view(members@),
                                values_view(members@),
                                key@,
                                i as int,
                            );
                        }
                        return Some(&members[i].1);
                    }
                    i += 1;
                }
                proof {
                    lemma_lookup_absent(names_view(members@), values_view(members@), key@);
                }
                None
            },
            _ => None,
        }
    }

    /// The characters of a string value.
    pub fn as_text(&self) -> (text: Option<&String>)
        ensures
            match text {
                Some(s) => self@.as_text() == Some(s@),
                None => self@.as_text() is None,
            },
    {
        match self {
            Json::Text(s) => Some(s),
            _ => None,
        }
    }

    /// The items of an array value.
    pub fn as_array(&self) -> (items: Option<&Vec<Json>>)
        ensures
            match items {
                Some(v) => self@.as_array() == Some(items_view(v@)),
                None => self@.as_array() is None,
            },
    {
        match self {
            Json::Array(items) => {
                proof {
                    lemma_array_view(*self);
                }
                Some(items)
            },
            _ => None,
        }
    }
}

} // verus!
