//! The persistent ordered map from page id to page bytes that snapshots share.
use vstd::prelude::*;

verus! {

#[verifier::external_type_specification]
#[verifier::external_body]
#[verifier::reject_recursive_types(K)]
#[verifier::reject_recursive_types(V)]
pub struct ExOrdMap<K, V>(im::OrdMap<K, V>);

/// The map that holds no page.
pub open spec fn no_pages() -> Map<u32, Seq<u8>> {
    Map::empty()
}

/// The entries of a page map.
pub uninterp spec fn page_map_contents(m: im::OrdMap<u32, Vec<u8>>) -> Map<u32, Seq<u8>>;

/// Relies on im::OrdMap::new: the map it makes is empty.
#[verifier::external_body]
pub fn page_map_new() -> (r: im::OrdMap<u32, Vec<u8>>)
    ensures
        page_map_contents(r) == no_pages(),
{
    im::OrdMap::new()
}

/// Relies on im::OrdMap::clone: the copy shares structure and has the same entries.
#[verifier::external_body]
pub fn page_map_clone(m: &im::OrdMap<u32, Vec<u8>>) -> (r: im::OrdMap<u32, Vec<u8>>)
    ensures
        page_map_contents(r) == page_map_contents(*m),
{
    m.clone()
}

/// Relies on im::OrdMap::get: the value stored under the key, if any.
#[verifier::external_body]
pub fn page_map_get(m: &im::OrdMap<u32, Vec<u8>>, key: u32) -> (r: Option<Vec<u8>>)
    ensures
        r.is_some() == page_map_contents(*m).contains_key(key),
        r.is_some() ==> r.unwrap()@ == page_map_contents(*m)[key],
{
    m.get(&key).cloned()
}

/// Relies on im::OrdMap::insert: the key maps to the value afterwards, the
/// other entries stay.
#[verifier::external_body]
pub fn page_map_insert(m: &mut im::OrdMap<u32, Vec<u8>>, key: u32, value: Vec<u8>)
    ensures
        page_map_contents(*final(m)) == page_map_contents(*old(m)).insert(key, value@),
{
    m.insert(key, value);
}

/// Relies on im::OrdMap::iter: every entry once, keys from lowest to highest.
#[verifier::external_body]
pub fn page_map_entries(m: &im::OrdMap<u32, Vec<u8>>) -> (r: Vec<(u32, Vec<u8>)>)
    ensures
        forall|i: int, j: int| 0 <= i < j < r@.len() ==> r@[i].0 < r@[j].0,
        forall|i: int|
            0 <= i < r@.len() ==> page_map_contents(*m).contains_key(#[trigger] r@[i].0)
                && page_map_contents(*m)[r@[i].0] == r@[i].1@,
        forall|k: u32|
            page_map_contents(*m).contains_key(k) ==> exists|i: int|
                0 <= i < r@.len() && #[trigger] r@[i].0 == k,
{
    m.iter().map(|(k, v)| (*k, v.clone())).collect()
}

} // verus!
