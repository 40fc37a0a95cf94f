//! The record a browser-side commit appends to the persistent key-value store.
use vstd::prelude::*;
use crate::page_map::page_map_contents;
use crate::page_map::page_map_entries;

verus! {

/// One committed batch: page ids and their LZ4-frame compressed bytes, by
/// position, tagged with the id of the writing session.
pub struct IndexedDbStoreFrame {
    pub pages: Vec<Vec<u8>>,
    pub page_ids: Vec<u32>,
    pub sid: String,
}

impl Default for IndexedDbStoreFrame {
    fn default() -> (r: IndexedDbStoreFrame)
        ensures
            r.pages@.len() == 0,
            r.page_ids@.len() == 0,
            r.sid@.len() == 0,
    {
        IndexedDbStoreFrame { pages: Vec::new(), page_ids: Vec::new(), sid: String::new() }
    }
}

/// The LZ4 frame that encodes the given bytes.
pub uninterp spec fn lz4_frame_of(data: Seq<u8>) -> Seq<u8>;

/// Relies on lz4_flex::frame::FrameEncoder: writing the bytes into a `Vec`
/// and finishing the frame yields their LZ4 frame, which depends on the bytes
/// alone. It cannot fail: the block buffer is sized for the worst case, a
/// `Vec` accepts every write, and no content size is set to be checked.
#[verifier::external_body]
fn fast_compress(data: &Vec<u8>) -> (r: Option<Vec<u8>>)
    ensures
        r.is_some(),
        r.unwrap()@ == lz4_frame_of(data@),
{
    let mut encoder = lz4_flex::frame::FrameEncoder::new(Vec::new());
    if std::io::Write::write_all(&mut encoder, data).is_err() {
        return None;
    }
    encoder.finish().ok()
}

/// Whether `frame` holds exactly the entries of `dirty`, each compressed,
/// with ids ascending, tagged `sid`.
pub open spec fn frame_encodes(frame: IndexedDbStoreFrame, dirty: Map<u32, Seq<u8>>, sid: Seq<char>) -> bool {
    &&& frame.sid@ == sid
    &&& frame.pages@.len() == frame.page_ids@.len()
    &&& forall|i: int, j: int|
        0 <= i < j < frame.page_ids@.len() ==> frame.page_ids@[i] < frame.page_ids@[j]
    &&& forall|i: int|
        0 <= i < frame.page_ids@.len() ==> dirty.contains_key(#[trigger] frame.page_ids@[i])
            && frame.pages@[i]@ == lz4_frame_of(dirty[frame.page_ids@[i]])
    &&& forall|k: u32|
        dirty.contains_key(k) ==> exists|i: int|
            0 <= i < frame.page_ids@.len() && #[trigger] frame.page_ids@[i] == k
}

/// Encodes the pages a commit wrote as a store frame.
pub fn transaction_to_store_frame(
    dirty_pages: &im::OrdMap<u32, Vec<u8>>,
    sid: &String,
) -> (r: IndexedDbStoreFrame)
    ensures
        frame_encodes(r, page_map_contents(*dirty_pages), sid@),
{
    let entries = page_map_entries(dirty_pages);
    let ghost dirty = page_map_contents(*dirty_pages);
    let mut pages: Vec<Vec<u8>> = Vec::new();
    let mut page_ids: Vec<u32> = Vec::new();
    let mut i: usize = 0;
    while i < entries.len()
        invariant
            i <= entries@.len(),
            dirty == page_map_contents(*dirty_pages),
            forall|a: int, b: int| 0 <= a < b < entries@.len() ==> entries@[a].0 < entries@[b].0,
            forall|a: int|
                0 <= a < entries@.len() ==> dirty.contains_key(#[trigger] entries@[a].0)
                    && dirty[entries@[a].0] == entries@[a].1@,
            pages@.len() == i,
            page_ids@.len() == i,
            forall|a: int| 0 <= a < i ==> #[trigger] page_ids@[a] == entries@[a].0,
            forall|a: int| 0 <= a < i ==> #[trigger] pages@[a]@ == lz4_frame_of(entries@[a].1@),
        decreases entries@.len() - i,
    {
        let out = fast_compress(&entries[i].1).unwrap();
        pages.push(out);
        page_ids.push(entries[i].0);
        i = i + 1;
    }
    let frame = IndexedDbStoreFrame { pages, page_ids, sid: sid.clone() };
    assert forall|k: u32| dirty.contains_key(k) implies exists|a: int|
        0 <= a < frame.page_ids@.len() && #[trigger] frame.page_ids@[a] == k by {
        let a = choose|a: int| 0 <= a < entries@.len() && #[trigger] entries@[a].0 == k;
        assert(frame.page_ids@[a] == k);
    }
    frame
}

} // verus!
