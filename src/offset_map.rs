//! The persistent ordered map from page id to the journal offset of its
//! latest record, shared by sessions that pin it.
use vstd::prelude::*;

verus! {

/// The map that holds no offset.
pub open spec fn no_offsets() -> Map<u32, u64> {
    Map::empty()
}

/// The entries of an offset map.
pub uninterp spec fn offset_map_contents(m: im::OrdMap<u32, u64>) -> Map<u32, u64>;

/// Relies on im::OrdMap::new: the map it makes is empty.
#[verifier::external_body]
pub fn offset_map_new() -> (r: im::OrdMap<u32, u64>)
    ensures
        offset_map_contents(r) == no_offsets(),
{
    im::OrdMap::new()
}

/// Relies on im::OrdMap::clone: the copy shares structure and has the same entries.
#[verifier::external_body]
pub fn offset_map_clone(m: &im::OrdMap<u32, u64>) -> (r: im::OrdMap<u32, u64>)
    ensures
        offset_map_contents(r) == offset_map_contents(*m),
{
    m.clone()
}

/// Relies on im::OrdMap::get: the value stored under the key, if any.
#[verifier::external_body]
pub fn offset_map_get(m: &im::OrdMap<u32, u64>, key: u32) -> (r: Option<u64>)
    ensures
        r.is_some() == offset_map_contents(*m).contains_key(key),
        r.is_some() ==> r.unwrap() == offset_map_contents(*m)[key],
{
    m.get(&key).copied()
}

/// Relies on im::OrdMap::insert: the key maps to the value afterwards, the
/// other entries stay.
#[verifier::external_body]
pub fn offset_map_insert(m: &mut im::OrdMap<u32, u64>, key: u32, value: u64)
    ensures
        offset_map_contents(*final(m)) == offset_map_contents(*old(m)).insert(key, value),
{
    m.insert(key, value);
}

/// Relies on im::OrdMap::iter: every entry once, keys from lowest to highest.
#[verifier::external_body]
pub fn offset_map_entries(m: &im::OrdMap<u32, u64>) -> (r: Vec<(u32, u64)>)
    ensures
        forall|i: int, j: int| 0 <= i < j < r@.len() ==> r@[i].0 < r@[j].0,
        forall|i: int|
            0 <= i < r@.len() ==> offset_map_contents(*m).contains_key(#[trigger] r@[i].0)
                && offset_map_contents(*m)[r@[i].0] == r@[i].1,
        forall|k: u32|
            offset_map_contents(*m).contains_key(k) ==> exists|i: int|
                0 <= i < r@.len() && #[trigger] r@[i].0 == k,
{
    m.iter().map(|(k, v)| (*k, *v)).collect()
}

/// `base` with every entry of `top` written over it.
pub fn offset_map_merge(base: &im::OrdMap<u32, u64>, top: &im::OrdMap<u32, u64>) -> (r: im::OrdMap<
    u32,
    u64,
>)
    ensures
        offset_map_contents(r) == offset_map_contents(*base).union_prefer_right(
            offset_map_contents(*top),
        ),
{
    let entries = offset_map_entries(top);
    let mut merged = offset_map_clone(base);
    let ghost b = offset_map_contents(*base);
    let ghost t = offset_map_contents(*top);
    let ghost mut applied = no_offsets();
    let mut i: usize = 0;
    while i < entries.len()
        invariant
            i <= entries@.len(),
            t == offset_map_contents(*top),
            forall|a: int|
                0 <= a < entries@.len() ==> t.contains_key(#[trigger] entries@[a].0) && t[entries@[a].0]
                    == entries@[a].1,
            offset_map_contents(merged) == b.union_prefer_right(applied),
            forall|k: u32| #[trigger]
                applied.contains_key(k) ==> t.contains_key(k) && applied[k] == t[k],
            forall|a: int| 0 <= a < i ==> applied.contains_key(#[trigger] entries@[a].0),
        decreases entries@.len() - i,
    {
        let (k, v) = entries[i];
        offset_map_insert(&mut merged, k, v);
        proof {
            applied = applied.insert(k, v);
            assert(offset_map_contents(merged) =~= b.union_prefer_right(applied));
        }
        i = i + 1;
    }
    assert forall|k: u32| t.contains_key(k) implies #[trigger] applied.contains_key(k) by {
        let a = choose|a: int| 0 <= a < entries@.len() && #[trigger] entries@[a].0 == k;
        assert(applied.contains_key(entries@[a].0));
    }
    assert(applied =~= t);
    merged
}

} // verus!
