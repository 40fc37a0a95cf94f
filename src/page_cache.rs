//! A bounded cache of page images. It only saves I/O: what it answers is
//! what was last put in under that id, and any entry may have been evicted.
use vstd::prelude::*;
use crate::page::RawPage;

verus! {

/// Number of pages a default cache holds.
pub const DEFAULT_CACHE_CAPACITY: usize = 1024;

/// Cached pages, oldest first, each id at most once.
pub struct PageCache {
    capacity: usize,
    pages: Vec<RawPage>,
}

impl PageCache {
    /// The cached entries, oldest first.
    pub closed spec fn entries(&self) -> Seq<(u32, Seq<u8>)> {
        self.pages@.map_values(|p: RawPage| (p.page_id, p.data@))
    }

    pub closed spec fn capacity(&self) -> nat {
        self.capacity as nat
    }

    pub open spec fn holds(&self, id: u32, data: Seq<u8>) -> bool {
        exists|i: int| 0 <= i < self.entries().len() && self.entries()[i] == (id, data)
    }

    pub open spec fn has_id(&self, id: u32) -> bool {
        exists|i: int| 0 <= i < self.entries().len() && #[trigger] self.entries()[i].0 == id
    }

    pub open spec fn wf(&self) -> bool {
        &&& 1 <= self.capacity()
        &&& self.entries().len() <= self.capacity()
        &&& forall|i: int, j: int|
            0 <= i < j < self.entries().len() ==> self.entries()[i].0 != self.entries()[j].0
    }

    pub fn new(capacity: usize) -> (r: PageCache)
        requires
            capacity >= 1,
        ensures
            r.wf(),
            r.capacity() == capacity,
            r.entries().len() == 0,
    {
        let r = PageCache { capacity, pages: Vec::new() };
        assert(r.entries() =~= Seq::<(u32, Seq<u8>)>::empty());
        r
    }

    /// An empty cache of the default capacity.
    pub fn new_default() -> (r: PageCache)
        ensures
            r.wf(),
            r.capacity() == DEFAULT_CACHE_CAPACITY,
            r.entries().len() == 0,
    {
        PageCache::new(DEFAULT_CACHE_CAPACITY)
    }

    fn position(&self, page_id: u32) -> (r: Option<usize>)
        ensures
            r.is_some() ==> r.unwrap() < self.entries().len() && self.entries()[r.unwrap() as int].0
                == page_id,
            r.is_none() ==> !self.has_id(page_id),
    {
        let mut i: usize = 0;
        while i < self.pages.len()
            invariant
                i <= self.pages@.len(),
                forall|j: int| 0 <= j < i ==> self.pages@[j].page_id != page_id,
            decreases self.pages@.len() - i,
        {
            if self.pages[i].page_id == page_id {
                return Some(i);
            }
            i = i + 1;
        }
        assert forall|j: int| 0 <= j < self.entries().len() implies #[trigger] self.entries()[j].0
            != page_id by {
            assert(self.entries()[j].0 == self.pages@[j].page_id);
        }
        None
    }

    /// The cached image of page `page_id`, if it is still held.
    pub fn get_from_cache(&self, page_id: u32) -> (r: Option<RawPage>)
        ensures
            r.is_some() == self.has_id(page_id),
            r.is_some() ==> r.unwrap().page_id == page_id && self.holds(page_id, r.unwrap().data@),
    {
        match self.position(page_id) {
            Some(i) => {
                let page = RawPage { page_id, data: self.pages[i].data.clone() };
                assert(self.entries()[i as int] == (page_id, page.data@));
                Some(page)
            },
            None => None,
        }
    }

    /// Holds a copy of `page`, replacing an older image of the same id; when
    /// full, the oldest entry leaves.
    pub fn insert_to_cache(&mut self, page: &RawPage)
        requires
            old(self).wf(),
        ensures
            final(self).wf(),
            final(self).capacity() == old(self).capacity(),
            final(self).holds(page.page_id, page.data@),
            forall|id: u32, data: Seq<u8>|
                #[trigger] final(self).holds(id, data) ==> (id == page.page_id && data == page.data@) || (
                id != page.page_id && old(self).holds(id, data)),
    {
        let copy = RawPage { page_id: page.page_id, data: page.data.clone() };
        let ghost before = self.entries();
        match self.position(page.page_id) {
            Some(i) => {
                self.pages.set(i, copy);
                assert(self.entries() =~= before.update(i as int, (page.page_id, page.data@)));
                assert(self.entries()[i as int] == (page.page_id, page.data@));
                assert forall|id: u32, data: Seq<u8>| #[trigger] self.holds(id, data) implies (id
                    == page.page_id && data == page.data@) || (id != page.page_id && old(self).holds(
                    id,
                    data,
                )) by {
                    let k = choose|k: int| 0 <= k < self.entries().len() && self.entries()[k] == (id, data);
                    if k != i {
                        assert(before[k] == (id, data));
                        assert(before[k].0 != before[i as int].0);
                    }
                }
            },
            None => {
                if self.pages.len() >= self.capacity {
                    self.pages.remove(0);
                    assert(self.entries() =~= before.subrange(1, before.len() as int));
                }
                let ghost mid = self.entries();
                self.pages.push(copy);
                assert(self.entries() =~= mid.push((page.page_id, page.data@)));
                assert(self.entries()[mid.len() as int] == (page.page_id, page.data@));
                assert forall|id: u32, data: Seq<u8>| #[trigger] self.holds(id, data) implies (id
                    == page.page_id && data == page.data@) || (id != page.page_id && old(self).holds(
                    id,
                    data,
                )) by {
                    let k = choose|k: int| 0 <= k < self.entries().len() && self.entries()[k] == (id, data);
                    if k < mid.len() {
                        let w = if before.len() >= self.capacity {
                            k + 1
                        } else {
                            k
                        };
                        assert(before[w] == (id, data));
                        assert(before[w].0 == id);
                        assert(old(self).holds(id, data));
                    } else {
                        assert(self.entries()[k] == (page.page_id, page.data@));
                    }
                }
            },
        }
    }
}

} // verus!
