//! The entry filter: which entries of a registry the scan works on.

use crate::json::{values_view, Json, JsonValue};
use crate::text::text_eq;
use vstd::prelude::*;

verus! {

/// The identifier type that the scan works on.
pub const TARGET_ID_TYPE: &'static str = "arxiv";

/// The name of the member that holds an entry's identifier type.
pub const ID_TYPE_FIELD: &'static str = "idType";

/// The identifier type of an entry: the text under `idType`.
///
/// An entry that is no object, has no such member, or holds something other
/// than a string there has no identifier type.
pub open spec fn id_type_of(entry: JsonValue) -> Option<Seq<char>> {
    match entry.member(ID_TYPE_FIELD@) {
        Some(JsonValue::Text(tag)) => Some(tag),
        _ => None,
    }
}

/// Whether an entry is of the identifier type that the scan works on.
pub open spec fn is_target(entry: JsonValue) -> bool {
    id_type_of(entry) == Some(TARGET_ID_TYPE@)
}

/// The places of the entries among `entries` that are of the target type, in
/// rising order, looking only at the first `n`.
pub open spec fn target_places(entries: Seq<JsonValue>, n: int) -> Seq<int>
    decreases n,
{
    if n <= 0 {
        Seq::empty()
    } else if is_target(entries[n - 1]) {
        target_places(entries, n - 1).push(n - 1)
    } else {
        target_places(entries, n - 1)
    }
}

/// The identifier type of an entry, as [`id_type_of`] defines it.
pub fn id_type(entry: &Json) -> (tag: Option<&String>)
    ensures
        match tag {
            Some(t) => id_type_of(entry@) == Some(t@),
            None => id_type_of(entry@) is None,
        },
{
    match entry.member(ID_TYPE_FIELD) {
        Some(value) => value.as_text(),
        None => None,
    }
}

/// The identifier type of an entry, copied out of it.
pub fn id_type_owned(entry: &Json) -> (tag: Option<String>)
    ensures
        match tag {
            Some(t) => id_type_of(entry@) == Some(t@),
            None => id_type_of(entry@) is None,
        },
{
    match id_type(entry) {
        Some(tag) => Some(tag.clone()),
        None => None,
    }
}

/// Whether an entry is of the target identifier type.
///
/// An entry without an identifier type is never of the target type.
pub fn matches_target(entry: &Json) -> (hit: bool)
    ensures
        hit == is_target(entry@),
{
    match id_type(entry) {
        Some(tag) => text_eq(tag.as_str(), TARGET_ID_TYPE),
        None => false,
    }
}

/// The places of the entries that are of the target type, in the order of the
/// entries.
///
/// The listing depends on the entries alone: going through the same entries
/// again gives the same places.
pub fn target_entries(entries: &Vec<(String, Json)>) -> (places: Vec<usize>)
    ensures
        places@.map_values(|p: usize| p as int) == target_places(
            values_view(entries@),
            entries@.len() as int,
        ),
{
    let mut places: Vec<usize> = Vec::new();
    let mut i: usize = 0;
    while i < entries.len()
        invariant
            i <= entries.len(),
            places@.map_values(|p: usize| p as int) == target_places(
                values_view(entries@),
                i as int,
            ),
        decreases entries.len() - i,
    {
        let ghost before = places@.map_values(|p: usize| p as int);
        if matches_target(&entries[i].1) {
            places.push(i);
            proof {
                assert(places@.map_values(|p: usize| p as int) =~= before.push(i as int));
            }
        }
        i += 1;
    }
    places
}

/// A place is listed by [`target_places`] exactly if it lies below `n` and the
/// entry there is of the target type; the listing rises and stays below `n`.
pub proof fn lemma_target_places(entries: Seq<JsonValue>, n: int)
    requires
        0 <= n <= entries.len(),
    ensures
        forall|i: int|
            target_places(entries, n).contains(i) <==> (0 <= i < n && is_target(
                #[trigger] entries[i],
            )),
        forall|a: int, b: int|
            0 <= a < b < target_places(entries, n).len() ==> target_places(entries, n)[a]
                < target_places(entries, n)[b],
        forall|a: int|
            0 <= a < target_places(entries, n).len() ==> 0 <= #[trigger] target_places(
                entries,
                n,
            )[a] < n,
    decreases n,
{
    if n > 0 {
        lemma_target_places(entries, n - 1);
        let before = target_places(entries, n - 1);
        let now = target_places(entries, n);
        if is_target(entries[n - 1]) {
            assert(now == before.push(n - 1));
            assert(now[before.len() as int] == n - 1);
            assert forall|i: int| now.contains(i) <==> (0 <= i < n && is_target(
                #[trigger] entries[i],
            )) by {
                if now.contains(i) {
                    let k = choose|k: int| 0 <= k < now.len() && now[k] == i;
                    if k < before.len() {
                        assert(before[k] == i);
                        assert(before.contains(i));
                    }
                }
                if 0 <= i < n && is_target(entries[i]) {
                    if i < n - 1 {
                        assert(before.contains(i));
                        let k = choose|k: int| 0 <= k < before.len() && before[k] == i;
                        assert(now[k] == i);
                    }
                }
            }
        } else {
            assert(now == before);
        }
    }
}

} // verus!
