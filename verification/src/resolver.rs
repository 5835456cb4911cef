//! The path resolver: from an entry's `path` member to the place of its file.

use crate::error::SchemaError;
use crate::json::{items_view, Json, JsonValue};
use crate::text::{lemma_encode_concat, strings_view};
use vstd::prelude::*;
use vstd::utf8::encode_utf8;

verus! {

/// The name of the member that holds an entry's path segments.
pub const PATH_FIELD: &'static str = "path";

/// Whether `i` is the first place at which `items` holds something other than
/// a string.
pub open spec fn is_first_non_text(items: Seq<JsonValue>, i: int) -> bool {
    &&& 0 <= i < items.len()
    &&& !(items[i] is Text)
    &&& forall|j: int| 0 <= j < i ==> #[trigger] items[j] is Text
}

/// The characters of each of `items`; meant for items that are all strings.
pub open spec fn texts_of(items: Seq<JsonValue>) -> Seq<Seq<char>> {
    Seq::new(items.len(), |i: int| items[i]->Text_0)
}

/// The path segments of an entry: the strings of the array under `path`, in
/// order, or what keeps that member from being such an array.
pub open spec fn path_segments(entry: JsonValue) -> Result<Seq<Seq<char>>, SchemaError> {
    match entry.member(PATH_FIELD@) {
        None => Err(SchemaError::PathMissing),
        Some(JsonValue::Array(items)) => {
            if forall|i: int| 0 <= i < items.len() ==> #[trigger] items[i] is Text {
                Ok(texts_of(items))
            } else {
                Err(
                    SchemaError::SegmentNotText {
                        index: (choose|i: int| is_first_non_text(items, i)) as usize,
                    },
                )
            }
        },
        Some(_) => Err(SchemaError::PathNotArray),
    }
}

/// The base directory followed by every segment in order, with nothing put
/// between them and nothing changed in them.
pub open spec fn joined(base: Seq<char>, segments: Seq<Seq<char>>) -> Seq<char> {
    base + segments.flatten()
}

/// The place of an entry's file below `base`, or why the entry names none.
pub open spec fn resolved_path(base: Seq<char>, entry: JsonValue) -> Result<
    Seq<char>,
    SchemaError,
> {
    match path_segments(entry) {
        Ok(segments) => Ok(joined(base, segments)),
        Err(e) => Err(e),
    }
}

/// The UTF-8 bytes of each of `segments`.
pub open spec fn encoded_each(segments: Seq<Seq<char>>) -> Seq<Seq<u8>> {
    Seq::new(segments.len(), |i: int| encode_utf8(segments[i]))
}

/// The first place of a non-string item is unique.
pub proof fn lemma_first_non_text_unique(items: Seq<JsonValue>, i: int, j: int)
    requires
        is_first_non_text(items, i),
        is_first_non_text(items, j),
    ensures
        i == j,
{
    if i < j {
        assert(items[i] is Text);
    } else if j < i {
        assert(items[j] is Text);
    }
}

/// Joining one segment more appends that segment's characters.
pub proof fn lemma_joined_push(base: Seq<char>, segments: Seq<Seq<char>>, next: Seq<char>)
    ensures
        joined(base, segments.push(next)) == joined(base, segments) + next,
{
    segments.lemma_flatten_push(next);
    assert(base + (segments.flatten() + next) =~= (base + segments.flatten()) + next);
}

/// Joining no segments gives the base directory itself.
pub proof fn lemma_joined_none(base: Seq<char>)
    ensures
        joined(base, Seq::empty()) == base,
{
    assert(Seq::<Seq<char>>::empty().flatten() =~= Seq::<char>::empty());
    assert(base + Seq::<char>::empty() =~= base);
}

/// Path concatenation is exact at the level of bytes: the bytes of a joined
/// path are the bytes of the base directory followed by the bytes of each
/// segment in order, and nothing else.
pub proof fn lemma_joined_bytes(base: Seq<char>, segments: Seq<Seq<char>>)
    ensures
        encode_utf8(joined(base, segments)) == encode_utf8(base) + encoded_each(
            segments,
        ).flatten(),
    decreases segments.len(),
{
    if segments.len() == 0 {
        assert(segments =~= Seq::<Seq<char>>::empty());
        lemma_joined_none(base);
        assert(encoded_each(segments) =~= Seq::<Seq<u8>>::empty());
        assert(encoded_each(segments).flatten() =~= Seq::<u8>::empty());
        assert(encode_utf8(base) + Seq::<u8>::empty() =~= encode_utf8(base));
    } else {
        let front = segments.drop_last();
        let last = segments.last();
        lemma_joined_bytes(base, front);
        assert(front.push(last) =~= segments);
        lemma_joined_push(base, front, last);
        lemma_encode_concat(joined(base, front), last);
        assert(encoded_each(front).push(encode_utf8(last)) =~= encoded_each(segments));
        encoded_each(front).lemma_flatten_push(encode_utf8(last));
        assert((encode_utf8(base) + encoded_each(front).flatten()) + encode_utf8(last)
            =~= encode_utf8(base) + (encoded_each(front).flatten() + encode_utf8(last)));
    }
}

/// Joining two runs of segments at once is joining the second run onto the
/// path that the first run gave.
pub proof fn lemma_joined_split(base: Seq<char>, first: Seq<Seq<char>>, second: Seq<Seq<char>>)
    ensures
        joined(base, first + second) == joined(joined(base, first), second),
{
    vstd::seq_lib::lemma_flatten_concat(first, second);
    assert(base + (first.flatten() + second.flatten()) =~= (base + first.flatten())
        + second.flatten());
}

/// A joined path begins with the base directory, unchanged.
pub proof fn lemma_joined_keeps_base(base: Seq<char>, segments: Seq<Seq<char>>)
    ensures
        joined(base, segments).len() == base.len() + segments.flatten().len(),
        joined(base, segments).subrange(0, base.len() as int) == base,
        joined(base, segments).subrange(base.len() as int, joined(base, segments).len() as int)
            == segments.flatten(),
{
    let whole = joined(base, segments);
    assert(whole.subrange(0, base.len() as int) =~= base);
    assert(whole.subrange(base.len() as int, whole.len() as int) =~= segments.flatten());
}

/// The strings of the array under an entry's `path`, in order.
///
/// Fails exactly where the entry has no `path`, where `path` is no array, or
/// where one of its items is no string; the error names the first such item.
pub fn segments_of(entry: &Json) -> (r: Result<Vec<String>, SchemaError>)
    ensures
        match r {
            Ok(segments) => path_segments(entry@) == Ok::<Seq<Seq<char>>, SchemaError>(
                strings_view(segments@),
            ),
            Err(e) => path_segments(entry@) == Err::<Seq<Seq<char>>, SchemaError>(e),
        },
{
    let path = match entry.member(PATH_FIELD) {
        Some(p) => p,
        None => {
            return Err(SchemaError::PathMissing);
        },
    };
    let items = match path.as_array() {
        Some(v) => v,
        None => {
            return Err(SchemaError::PathNotArray);
        },
    };
    let ghost values = items_view(items@);
    let mut segments: Vec<String> = Vec::new();
    let mut i: usize = 0;
    while i < items.len()
        invariant
            i <= items.len(),
            values == items_view(items@),
            entry@.member(PATH_FIELD@) == Some(JsonValue::Array(values)),
            segments@.len() == i,
            forall|j: int| 0 <= j < i ==> #[trigger] values[j] is Text,
            forall|j: int| 0 <= j < i ==> #[trigger] segments@[j]@ == values[j]->Text_0,
        decreases items.len() - i,
    {
        match items[i].as_text() {
            Some(text) => {
                segments.push(text.clone());
            },
            None => {
                proof {
                    assert(values[i as int] == items[i as int]@);
                    assert(!(values[i as int] is Text));
                    assert(is_first_non_text(values, i as int));
                    let k = choose|k: int| is_first_non_text(values, k);
                    lemma_first_non_text_unique(values, i as int, k);
                    assert(k as usize == i);
                }
                return Err(SchemaError::SegmentNotText { index: i });
            },
        }
        i += 1;
    }
    proof {
        assert(strings_view(segments@) =~= texts_of(values));
    }
    Ok(segments)
}

/// The base directory followed by every segment in order: exact concatenation,
/// with no separator put in and no normalisation.
pub fn join_segments(base: &str, segments: &Vec<String>) -> (path: String)
    ensures
        path@ == joined(base@, strings_view(segments@)),
{
    let mut path: String = base.to_owned();
    let mut i: usize = 0;
    proof {
        lemma_joined_none(base@);
        assert(strings_view(segments@).take(0) =~= Seq::<Seq<char>>::empty());
    }
    while i < segments.len()
        invariant
            i <= segments.len(),
            path@ == joined(base@, strings_view(segments@).take(i as int)),
        decreases segments.len() - i,
    {
        proof {
            let all = strings_view(segments@);
            lemma_joined_push(base@, all.take(i as int), all[i as int]);
            assert(all.take(i as int).push(all[i as int]) =~= all.take(i as int + 1));
        }
        path.append(segments[i].as_str());
        i += 1;
    }
    proof {
        assert(strings_view(segments@).take(i as int) =~= strings_view(segments@));
    }
    path
}

/// The place of an entry's file below `base`.
///
/// Fails exactly where [`segments_of`] fails, with the same error.
pub fn resolve_path(base: &str, entry: &Json) -> (r: Result<String, SchemaError>)
    ensures
        match r {
            Ok(path) => resolved_path(base@, entry@) == Ok::<Seq<char>, SchemaError>(path@),
            Err(e) => resolved_path(base@, entry@) == Err::<Seq<char>, SchemaError>(e),
        },
{
    match segments_of(entry) {
        Ok(segments) => Ok(join_segments(base, &segments)),
        Err(e) => Err(e),
    }
}

} // verus!
