//! The browser backend: the memory backend, whose commits also yield a store
//! frame for the persistent key-value store, and which rebuilds its state by
//! replaying those frames in order.
use vstd::prelude::*;
use crate::error::DbErr;
use crate::memory_backend::MemView;
use crate::memory_backend::MemoryBackendInner;
use crate::page::RawPage;
use crate::page::header_bytes;
use crate::page_map::no_pages;
use crate::session_table::no_sessions;
use crate::snapshot::PageImage;
use crate::store_data::IndexedDbStoreFrame;
use crate::store_data::frame_encodes;
use crate::store_data::transaction_to_store_frame;
use crate::transaction::TransactionType;

verus! {

/// The bytes that an LZ4 frame decodes to; `None` for a malformed frame.
pub uninterp spec fn lz4_frame_decoded(frame: Seq<u8>) -> Option<Seq<u8>>;

/// Relies on lz4_flex::frame::FrameDecoder: reading the frame to its end
/// yields the bytes it encodes, or an error for a malformed frame; either
/// depends on the frame alone.
#[verifier::external_body]
fn decompress(frame: &Vec<u8>) -> (r: Option<Vec<u8>>)
    ensures
        r.is_some() == lz4_frame_decoded(frame@).is_some(),
        r.is_some() ==> r.unwrap()@ == lz4_frame_decoded(frame@).unwrap(),
{
    let mut out: Vec<u8> = Vec::new();
    let mut decoder = lz4_flex::frame::FrameDecoder::new(frame.as_slice());
    std::io::Read::read_to_end(&mut decoder, &mut out).ok().map(|_| out)
}

/// The image after writing the first `n` pages of a batch in order.
pub open spec fn apply_pages(
    image: PageImage,
    page_size: u32,
    ids: Seq<u32>,
    datas: Seq<Seq<u8>>,
    n: nat,
) -> PageImage
    decreases n,
{
    if n == 0 {
        image
    } else {
        apply_pages(image, page_size, ids, datas, (n - 1) as nat).write(
            page_size,
            ids[n - 1],
            datas[n - 1],
        )
    }
}

/// The state of a browser store: the pages in memory and the id that tags
/// the frames this process writes.
pub struct IndexedDbBackendInner {
    mem: MemoryBackendInner,
    session_id: String,
}

impl IndexedDbBackendInner {
    pub closed spec fn mem_view(&self) -> MemView {
        self.mem@
    }

    pub closed spec fn sid(&self) -> Seq<char> {
        self.session_id@
    }

    pub fn open(session_id: String, page_size: u32, init_block_count: u64) -> (r: IndexedDbBackendInner)
        requires
            page_size >= 36,
            init_block_count >= 1,
            init_block_count * page_size <= u64::MAX,
        ensures
            r.sid() == session_id@,
            r.mem_view() == (MemView {
                page_size,
                committed: PageImage {
                    pages: no_pages().insert(0, header_bytes(page_size as nat)),
                    size: (init_block_count * page_size) as u64,
                },
                tx: None,
                sessions: no_sessions(),
            }),
    {
        IndexedDbBackendInner {
            mem: MemoryBackendInner::new(page_size, init_block_count),
            session_id,
        }
    }

    /// Replays one persisted frame into the committed state: each page
    /// decoded and written in order. Refused while a transaction is active;
    /// on any error nothing changes.
    pub fn load_frame(&mut self, frame: &IndexedDbStoreFrame) -> (r: Result<(), DbErr>)
        ensures
            final(self).sid() == old(self).sid(),
            old(self).mem_view().tx.is_some() ==> r == Err::<(), DbErr>(DbErr::Busy),
            old(self).mem_view().tx.is_none() && frame.page_ids@.len() != frame.pages@.len() ==> r
                == Err::<(), DbErr>(DbErr::NotAValidDatabase),
            old(self).mem_view().tx.is_none() && frame.page_ids@.len() == frame.pages@.len() && (
            forall|i: int|
                0 <= i < frame.pages@.len() ==> #[trigger] lz4_frame_decoded(
                    frame.pages@[i]@,
                ).is_some()) ==> r.is_ok(),
            old(self).mem_view().tx.is_none() && frame.page_ids@.len() == frame.pages@.len() && !(
            forall|i: int|
                0 <= i < frame.pages@.len() ==> #[trigger] lz4_frame_decoded(
                    frame.pages@[i]@,
                ).is_some()) ==> r == Err::<(), DbErr>(DbErr::Compression),
            r.is_err() ==> final(self).mem_view() == old(self).mem_view(),
            r.is_ok() ==> final(self).mem_view() == (MemView {
                committed: apply_pages(
                    old(self).mem_view().committed,
                    old(self).mem_view().page_size,
                    frame.page_ids@,
                    frame.pages@.map_values(|p: Vec<u8>| lz4_frame_decoded(p@).unwrap()),
                    frame.page_ids@.len(),
                ),
                ..old(self).mem_view()
            }),
    {
        if self.mem.transaction_type().is_some() {
            return Err(DbErr::Busy);
        }
        if frame.page_ids.len() != frame.pages.len() {
            return Err(DbErr::NotAValidDatabase);
        }
        let ghost datas = frame.pages@.map_values(|p: Vec<u8>| lz4_frame_decoded(p@).unwrap());
        let mut decoded: Vec<Vec<u8>> = Vec::new();
        let mut i: usize = 0;
        while i < frame.pages.len()
            invariant
                i <= frame.pages@.len(),
                datas == frame.pages@.map_values(|p: Vec<u8>| lz4_frame_decoded(p@).unwrap()),
                decoded@.len() == i,
                forall|j: int| 0 <= j < i ==> #[trigger] decoded@[j]@ == datas[j],
                self.mem@ == old(self).mem@,
                self.session_id@ == old(self).session_id@,
                self.mem@.tx.is_none(),
                frame.page_ids@.len() == frame.pages@.len(),
                datas.len() == frame.pages@.len(),
                forall|j: int|
                    0 <= j < i ==> #[trigger] lz4_frame_decoded(frame.pages@[j]@).is_some(),
            decreases frame.pages@.len() - i,
        {
            match decompress(&frame.pages[i]) {
                Some(data) => decoded.push(data),
                None => {
                    return Err(DbErr::Compression);
                },
            }
            i = i + 1;
        }
        assert(decoded@.map_values(|p: Vec<u8>| p@) =~= datas);
        self.replay_pages(&frame.page_ids, &decoded)
    }

    /// Writes decoded pages straight into the committed state, in order, as
    /// replaying a persisted batch does. Refused while a transaction is
    /// active, or where ids and pages differ in number; then nothing changes.
    pub fn replay_pages(&mut self, page_ids: &Vec<u32>, pages: &Vec<Vec<u8>>) -> (r: Result<(), DbErr>)
        ensures
            final(self).sid() == old(self).sid(),
            old(self).mem_view().tx.is_some() ==> r == Err::<(), DbErr>(DbErr::Busy),
            old(self).mem_view().tx.is_none() && page_ids@.len() != pages@.len() ==> r == Err::<
                (),
                DbErr,
            >(DbErr::NotAValidDatabase),
            old(self).mem_view().tx.is_none() && page_ids@.len() == pages@.len() ==> r.is_ok(),
            r.is_err() ==> final(self).mem_view() == old(self).mem_view(),
            r.is_ok() ==> final(self).mem_view() == (MemView {
                committed: apply_pages(
                    old(self).mem_view().committed,
                    old(self).mem_view().page_size,
                    page_ids@,
                    pages@.map_values(|p: Vec<u8>| p@),
                    page_ids@.len(),
                ),
                ..old(self).mem_view()
            }),
    {
        if self.mem.transaction_type().is_some() {
            return Err(DbErr::Busy);
        }
        if page_ids.len() != pages.len() {
            return Err(DbErr::NotAValidDatabase);
        }
        let ghost start = self.mem@;
        let ghost datas = pages@.map_values(|p: Vec<u8>| p@);
        let mut k: usize = 0;
        while k < pages.len()
            invariant
                k <= pages@.len(),
                pages@.len() == page_ids@.len(),
                datas == pages@.map_values(|p: Vec<u8>| p@),
                start.tx.is_none(),
                self.mem@ == (MemView {
                    committed: apply_pages(start.committed, start.page_size, page_ids@, datas, k as nat),
                    ..start
                }),
                self.session_id@ == old(self).session_id@,
            decreases pages@.len() - k,
        {
            let page = RawPage { page_id: page_ids[k], data: pages[k].clone() };
            self.mem.replay_page(&page);
            k = k + 1;
        }
        Ok(())
    }

    pub fn read_page(&self, page_id: u32, session_id: Option<u128>) -> (r: Result<RawPage, DbErr>)
        ensures
            !self.mem_view().session_ok(session_id) ==> r == Err::<RawPage, DbErr>(
                DbErr::InvalidSession(session_id.unwrap()),
            ),
            self.mem_view().session_ok(session_id) && self.mem_view().read(session_id, page_id).is_some()
                ==> r.is_ok() && r.unwrap().page_id == page_id && r.unwrap().data@ == self.mem_view().read(
                session_id,
                page_id,
            ).unwrap(),
            self.mem_view().session_ok(session_id) && self.mem_view().read(session_id, page_id).is_none()
                ==> r == Err::<RawPage, DbErr>(DbErr::PageNotExist(page_id)),
    {
        self.mem.read_page(page_id, session_id)
    }

    pub fn write_page(&mut self, page: &RawPage, session_id: Option<u128>) -> (r: Result<(), DbErr>)
        requires
            session_id.is_none(),
        ensures
            final(self).sid() == old(self).sid(),
            old(self).mem_view().in_write() ==> r.is_ok(),
            !old(self).mem_view().in_write() ==> r == Err::<(), DbErr>(
                DbErr::CannotWriteDbWithoutTransaction,
            ),
            final(self).mem_view() == old(self).mem_view().write(page.page_id, page.data@),
    {
        self.mem.write_page(page, session_id)
    }

    /// Publishes the active transaction in memory and returns the frame that
    /// persists its pages, tagged with this backend's session id.
    pub fn commit(&mut self) -> (r: Result<IndexedDbStoreFrame, DbErr>)
        ensures
            final(self).sid() == old(self).sid(),
            old(self).mem_view().tx.is_none() ==> r == Err::<IndexedDbStoreFrame, DbErr>(
                DbErr::CannotWriteDbWithoutTransaction,
            ),
            final(self).mem_view() == old(self).mem_view().commit(),
            old(self).mem_view().tx.is_some() ==> r.is_ok(),
            r.is_ok() ==> frame_encodes(r.unwrap(), old(self).mem_view().tx.unwrap().dirty, old(self).sid()),
    {
        let transaction = self.mem.commit()?;
        Ok(transaction_to_store_frame(&transaction.dirty_pages, &self.session_id))
    }

    pub fn db_size(&self) -> (r: u64)
        ensures
            r == self.mem_view().main_image().size,
    {
        self.mem.db_size()
    }

    pub fn set_db_size(&mut self, size: u64) -> (r: Result<(), DbErr>)
        ensures
            final(self).sid() == old(self).sid(),
            r.is_ok(),
            final(self).mem_view() == old(self).mem_view().set_size(size),
    {
        self.mem.set_db_size(size)
    }

    pub fn transaction_type(&self) -> (r: Option<TransactionType>)
        ensures
            r == (match self.mem_view().tx {
                Some(t) => Some(t.ty),
                None => None::<TransactionType>,
            }),
    {
        self.mem.transaction_type()
    }

    pub fn upgrade_read_transaction_to_write(&mut self) -> (r: Result<(), DbErr>)
        ensures
            final(self).sid() == old(self).sid(),
            r.is_ok(),
            final(self).mem_view() == old(self).mem_view().upgrade(),
    {
        self.mem.upgrade_read_transaction_to_write()
    }

    pub fn rollback(&mut self) -> (r: Result<(), DbErr>)
        ensures
            final(self).sid() == old(self).sid(),
            old(self).mem_view().tx.is_some() ==> r.is_ok(),
            old(self).mem_view().tx.is_none() ==> r == Err::<(), DbErr>(DbErr::RollbackNotInTransaction),
            final(self).mem_view() == old(self).mem_view().rollback(),
    {
        self.mem.rollback()
    }

    pub fn start_transaction(&mut self, ty: TransactionType) -> (r: Result<(), DbErr>)
        ensures
            final(self).sid() == old(self).sid(),
            old(self).mem_view().tx.is_none() ==> r.is_ok(),
            old(self).mem_view().tx.is_some() ==> r == Err::<(), DbErr>(DbErr::Busy),
            final(self).mem_view() == old(self).mem_view().start(ty),
    {
        self.mem.start_transaction(ty)
    }

    pub fn new_session(&mut self, id: u128) -> (r: Result<(), DbErr>)
        ensures
            final(self).sid() == old(self).sid(),
            r.is_ok(),
            final(self).mem_view() == old(self).mem_view().new_session(id),
    {
        self.mem.new_session(id)
    }

    pub fn remove_session(&mut self, id: u128) -> (r: Result<(), DbErr>)
        ensures
            final(self).sid() == old(self).sid(),
            r.is_ok(),
            final(self).mem_view() == old(self).mem_view().remove_session(id),
    {
        self.mem.remove_session(id)
    }
}

} // verus!
