//! Immutable snapshots of the page store and drafts that layer writes on them.
use vstd::prelude::*;
use crate::page::zeros;
use crate::page::RawPage;
use crate::page_map::page_map_clone;
use crate::page_map::page_map_contents;
use crate::page_map::page_map_entries;
use crate::page_map::page_map_get;
use crate::page_map::page_map_insert;
use crate::page_map::page_map_new;
use crate::page_map::no_pages;

verus! {

/// What a reader can observe: the stored pages and the logical database size in bytes.
pub struct PageImage {
    pub pages: Map<u32, Seq<u8>>,
    pub size: u64,
}

impl PageImage {
    /// A page id whose offset lies below the database size.
    pub open spec fn in_size(self, page_size: u32, id: u32) -> bool {
        (id as int) * (page_size as int) < self.size as int
    }

    /// The bytes a read of `id` returns: the stored page, else zeros within the
    /// database size, else nothing (the read fails).
    pub open spec fn read(self, page_size: u32, id: u32) -> Option<Seq<u8>> {
        if self.pages.contains_key(id) {
            Some(self.pages[id])
        } else if self.in_size(page_size, id) {
            Some(zeros(page_size as nat))
        } else {
            None
        }
    }

    /// The size after a write of `id`: grown to cover the page.
    pub open spec fn grown_size(self, page_size: u32, id: u32) -> u64 {
        let end = ((id as int) + 1) * (page_size as int);
        if end > self.size as int {
            end as u64
        } else {
            self.size
        }
    }

    /// The image after writing `data` as page `id`.
    pub open spec fn write(self, page_size: u32, id: u32, data: Seq<u8>) -> PageImage {
        PageImage { pages: self.pages.insert(id, data), size: self.grown_size(page_size, id) }
    }

    /// The image with its database size set to `size`.
    pub open spec fn with_size(self, size: u64) -> PageImage {
        PageImage { pages: self.pages, size }
    }
}

/// A page that was never written but lies within the database size reads as
/// `page_size` zero bytes.
pub proof fn lemma_zero_fill(image: PageImage, page_size: u32, id: u32)
    requires
        !image.pages.contains_key(id),
        image.in_size(page_size, id),
    ensures
        image.read(page_size, id) == Some(zeros(page_size as nat)),
        zeros(page_size as nat).len() == page_size,
        forall|i: int| 0 <= i < page_size ==> #[trigger] zeros(page_size as nat)[i] == 0u8,
{
}

/// An immutable view of all pages; cloning shares structure.
pub struct Snapshot {
    pub pages: im::OrdMap<u32, Vec<u8>>,
    pub db_file_size: u64,
}

impl Snapshot {
    pub open spec fn image(&self) -> PageImage {
        PageImage { pages: page_map_contents(self.pages), size: self.db_file_size }
    }

    /// A snapshot with no page and the given size.
    pub fn new(db_file_size: u64) -> (r: Snapshot)
        ensures
            r.image() == (PageImage { pages: no_pages(), size: db_file_size }),
    {
        Snapshot { pages: page_map_new(), db_file_size }
    }

    /// A copy that shares the pages.
    pub fn share(&self) -> (r: Snapshot)
        ensures
            r.image() == self.image(),
    {
        Snapshot { pages: page_map_clone(&self.pages), db_file_size: self.db_file_size }
    }

    pub fn read_page(&self, page_id: u32) -> (r: Option<Vec<u8>>)
        ensures
            r.is_some() == self.image().pages.contains_key(page_id),
            r.is_some() ==> r.unwrap()@ == self.image().pages[page_id],
    {
        page_map_get(&self.pages, page_id)
    }

    pub fn db_file_size(&self) -> (r: u64)
        ensures
            r == self.image().size,
    {
        self.db_file_size
    }
}

/// Pending writes layered over a snapshot that stays untouched.
pub struct SnapshotDraft {
    pub base: Snapshot,
    pub overlay: im::OrdMap<u32, Vec<u8>>,
    pub db_file_size: u64,
}

impl SnapshotDraft {
    /// The pages written so far.
    pub open spec fn dirty(&self) -> Map<u32, Seq<u8>> {
        page_map_contents(self.overlay)
    }

    /// What a read through the draft observes: the overlay over the base.
    pub open spec fn image(&self) -> PageImage {
        PageImage {
            pages: self.base.image().pages.union_prefer_right(self.dirty()),
            size: self.db_file_size,
        }
    }

    pub fn new(base: Snapshot) -> (r: SnapshotDraft)
        ensures
            r.image() == base.image(),
            r.base.image() == base.image(),
            r.dirty() == no_pages(),
    {
        let db_file_size = base.db_file_size;
        let r = SnapshotDraft { base, overlay: page_map_new(), db_file_size };
        assert(r.image().pages =~= base.image().pages);
        r
    }

    pub fn read_page(&self, page_id: u32) -> (r: Option<Vec<u8>>)
        ensures
            r.is_some() == self.image().pages.contains_key(page_id),
            r.is_some() ==> r.unwrap()@ == self.image().pages[page_id],
    {
        let hit = page_map_get(&self.overlay, page_id);
        if hit.is_some() {
            hit
        } else {
            self.base.read_page(page_id)
        }
    }

    /// Records `page` in the overlay; the size is left as it is.
    pub fn write_page(&mut self, page: &RawPage)
        ensures
            final(self).image() == (PageImage {
                pages: old(self).image().pages.insert(page.page_id, page.data@),
                size: old(self).image().size,
            }),
            final(self).base.image() == old(self).base.image(),
            final(self).dirty() == old(self).dirty().insert(page.page_id, page.data@),
    {
        page_map_insert(&mut self.overlay, page.page_id, page.data.clone());
        assert(self.image().pages =~= old(self).image().pages.insert(page.page_id, page.data@));
    }

    pub fn db_file_size(&self) -> (r: u64)
        ensures
            r == self.image().size,
    {
        self.db_file_size
    }

    pub fn set_db_file_size(&mut self, size: u64)
        ensures
            final(self).image() == old(self).image().with_size(size),
            final(self).base.image() == old(self).base.image(),
            final(self).dirty() == old(self).dirty(),
    {
        self.db_file_size = size;
    }

    /// Merges the overlay into a new snapshot; also hands back the overlay.
    pub fn commit(self) -> (r: (Snapshot, im::OrdMap<u32, Vec<u8>>))
        ensures
            r.0.image() == self.image(),
            page_map_contents(r.1) == self.dirty(),
    {
        let entries = page_map_entries(&self.overlay);
        let mut pages = page_map_clone(&self.base.pages);
        let ghost base = page_map_contents(self.base.pages);
        let ghost dirty = page_map_contents(self.overlay);
        let ghost mut applied = no_pages();
        let mut i: usize = 0;
        while i < entries.len()
            invariant
                i <= entries@.len(),
                dirty == page_map_contents(self.overlay),
                forall|a: int|
                    0 <= a < entries@.len() ==> dirty.contains_key(#[trigger] entries@[a].0)
                        && dirty[entries@[a].0] == entries@[a].1@,
                page_map_contents(pages) == base.union_prefer_right(applied),
                forall|k: u32| #[trigger]
                    applied.contains_key(k) ==> dirty.contains_key(k) && applied[k] == dirty[k],
                forall|a: int| 0 <= a < i ==> applied.contains_key(#[trigger] entries@[a].0),
            decreases entries@.len() - i,
        {
            let k = entries[i].0;
            let v = entries[i].1.clone();
            page_map_insert(&mut pages, k, v);
            proof {
                applied = applied.insert(k, v@);
                assert(page_map_contents(pages) =~= base.union_prefer_right(applied));
            }
            i = i + 1;
        }
        assert forall|k: u32| dirty.contains_key(k) implies #[trigger] applied.contains_key(k) by {
            let a = choose|a: int| 0 <= a < entries@.len() && #[trigger] entries@[a].0 == k;
            assert(applied.contains_key(entries@[a].0));
        }
        assert(applied =~= dirty);
        (Snapshot { pages, db_file_size: self.db_file_size }, self.overlay)
    }
}

} // verus!
