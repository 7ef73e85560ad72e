//! Maps of texts that remember the order in which their keys arrived.
//!
//! The map itself is `indexmap::IndexMap`. Verus does not look inside it:
//! what it holds is named by `entries`, and the functions below say, without
//! proof, what the map's own operations do to that name.

use vstd::prelude::*;
use indexmap::IndexMap;

verus! {

#[verifier::external_type_specification]
#[verifier::external_body]
#[verifier::reject_recursive_types(K)]
#[verifier::reject_recursive_types(V)]
#[verifier::reject_recursive_types(S)]
pub struct ExIndexMap<K, V, S>(IndexMap<K, V, S>);

/// A key with its text.
pub type Entry = (Seq<char>, Seq<char>);

/// The entries of a map, in the order of the map.
pub uninterp spec fn entries(map: IndexMap<String, String>) -> Seq<Entry>;

/// The place of the first entry under `key`, or the length of `list` where
/// there is none.
pub open spec fn key_index(list: Seq<Entry>, key: Seq<char>) -> int
    decreases list.len(),
{
    if list.len() == 0 {
        0
    } else if list[0].0 == key {
        0
    } else {
        1 + key_index(list.drop_first(), key)
    }
}

/// The entries after `value` was inserted under `key`: a key that is there
/// keeps its place and gets the new text, a new key goes to the end.
pub open spec fn inserted(list: Seq<Entry>, key: Seq<char>, value: Seq<char>) -> Seq<Entry> {
    let i = key_index(list, key);
    if i < list.len() {
        list.update(i, (key, value))
    } else {
        list.push((key, value))
    }
}

/// The text that was under `key`, if the key was there.
pub open spec fn text_under(list: Seq<Entry>, key: Seq<char>) -> Option<Seq<char>> {
    let i = key_index(list, key);
    if i < list.len() {
        Some(list[i].1)
    } else {
        None
    }
}

/// The entries of a map into which `items` were inserted one after the
/// other, starting from no entries.
pub open spec fn collected(items: Seq<Entry>) -> Seq<Entry>
    decreases items.len(),
{
    if items.len() == 0 {
        Seq::empty()
    } else {
        inserted(collected(items.drop_last()), items.last().0, items.last().1)
    }
}

/// `IndexMap::new`: claims that the new map has no entries.
#[verifier::external_body]
pub(crate) fn new_map() -> (map: IndexMap<String, String>)
    ensures
        entries(map) == Seq::<Entry>::empty(),
{
    IndexMap::new()
}

/// `IndexMap::insert`: claims what the crate documents. A key that is in the
/// map keeps its place in the order, its text is replaced and the old text
/// is returned; a key that is not is added last and nothing is returned.
#[verifier::external_body]
pub(crate) fn insert(map: &mut IndexMap<String, String>, key: String, value: String) -> (old_text:
    Option<String>)
    ensures
        entries(*final(map)) == inserted(entries(*old(map)), key@, value@),
        old_text.deep_view() == text_under(entries(*old(map)), key@),
{
    map.insert(key, value)
}

/// `IndexMap::iter`: claims that the iterator walks the entries in the
/// order of the map; each is copied out as a pair of strings.
#[verifier::external_body]
pub(crate) fn to_vec(map: &IndexMap<String, String>) -> (list: Vec<(String, String)>)
    ensures
        list.deep_view() == entries(*map),
{
    map.iter().map(|(key, value)| (key.clone(), value.clone())).collect()
}

/// A map that holds `items`, inserted in their order.
pub fn collect(items: &Vec<(String, String)>) -> (map: IndexMap<String, String>)
    ensures
        entries(map) == collected(items.deep_view()),
{
    let mut map = new_map();
    let ghost all = items.deep_view();
    let mut i: usize = 0;
    while i < items.len()
        invariant
            i <= items.len(),
            all == items.deep_view(),
            entries(map) == collected(all.take(i as int)),
        decreases items.len() - i,
    {
        proof {
            assert(all.take(i + 1).drop_last() =~= all.take(i as int));
        }
        let _ = insert(&mut map, items[i].0.clone(), items[i].1.clone());
        i += 1;
    }
    assert(all.take(items.len() as int) =~= all);
    map
}

} // verus!
