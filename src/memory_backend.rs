//! The in-memory backend: a committed snapshot, at most one transaction, and
//! read sessions pinned to past snapshots.
use vstd::prelude::*;
use crate::error::DbErr;
use crate::page::header_bytes;
use crate::page::RawPage;
use crate::page_map::page_map_contents;
use crate::page_map::page_map_new;
use crate::page_map::no_pages;
use crate::session_table::session_images;
use crate::session_table::no_sessions;
use crate::session_table::SessionTable;
use crate::snapshot::PageImage;
use crate::snapshot::Snapshot;
use crate::snapshot::SnapshotDraft;
use crate::transaction::TransactionType;

verus! {

/// The observable state of a transaction: its kind, what it reads, and the
/// pages it wrote.
pub struct TxView {
    pub ty: TransactionType,
    pub image: PageImage,
    pub dirty: Map<u32, Seq<u8>>,
}

/// The observable state of a memory backend.
pub struct MemView {
    pub page_size: u32,
    pub committed: PageImage,
    pub tx: Option<TxView>,
    pub sessions: Map<u128, PageImage>,
}

impl MemView {
    /// A transaction of the given kind on the committed image.
    pub open spec fn fresh_tx(self, ty: TransactionType) -> TxView {
        TxView { ty, image: self.committed, dirty: no_pages() }
    }

    pub open spec fn in_write(self) -> bool {
        self.tx.is_some() && self.tx.unwrap().ty == TransactionType::Write
    }

    /// What reads outside any session observe.
    pub open spec fn main_image(self) -> PageImage {
        match self.tx {
            Some(t) => t.image,
            None => self.committed,
        }
    }

    /// Whether a read in `session` names a live session (or none).
    pub open spec fn session_ok(self, session: Option<u128>) -> bool {
        match session {
            Some(s) => self.sessions.contains_key(s),
            None => true,
        }
    }

    /// What a read in `session` observes.
    pub open spec fn image_of(self, session: Option<u128>) -> PageImage {
        match session {
            Some(s) => self.sessions[s],
            None => self.main_image(),
        }
    }

    /// The bytes a read of page `id` in `session` returns, if it succeeds.
    pub open spec fn read(self, session: Option<u128>, id: u32) -> Option<Seq<u8>> {
        self.image_of(session).read(self.page_size, id)
    }

    pub open spec fn start(self, ty: TransactionType) -> MemView {
        if self.tx.is_some() {
            self
        } else {
            MemView { tx: Some(self.fresh_tx(ty)), ..self }
        }
    }

    /// A write transaction stays as it is; otherwise a fresh write
    /// transaction replaces the read transaction, if any.
    pub open spec fn upgrade(self) -> MemView {
        if self.in_write() {
            self
        } else {
            MemView { tx: Some(self.fresh_tx(TransactionType::Write)), ..self }
        }
    }

    pub open spec fn write(self, id: u32, data: Seq<u8>) -> MemView {
        if self.in_write() {
            let t = self.tx.unwrap();
            MemView {
                tx: Some(
                    TxView {
                        ty: t.ty,
                        image: t.image.write(self.page_size, id, data),
                        dirty: t.dirty.insert(id, data),
                    },
                ),
                ..self
            }
        } else {
            self
        }
    }

    /// Sets the size that the active write transaction sees; outside one
    /// nothing changes.
    pub open spec fn set_size(self, size: u64) -> MemView {
        if self.in_write() {
            let t = self.tx.unwrap();
            MemView {
                tx: Some(TxView { ty: t.ty, image: t.image.with_size(size), dirty: t.dirty }),
                ..self
            }
        } else {
            self
        }
    }

    pub open spec fn commit(self) -> MemView {
        match self.tx {
            Some(t) => MemView { committed: t.image, tx: None, ..self },
            None => self,
        }
    }

    pub open spec fn rollback(self) -> MemView {
        MemView { tx: None, ..self }
    }

    pub open spec fn new_session(self, id: u128) -> MemView {
        MemView { sessions: self.sessions.insert(id, self.committed), ..self }
    }

    pub open spec fn remove_session(self, id: u128) -> MemView {
        MemView { sessions: self.sessions.remove(id), ..self }
    }

    /// Writes each `(id, bytes)` in order.
    pub open spec fn write_all(self, writes: Seq<(u32, Seq<u8>)>) -> MemView
        decreases writes.len(),
    {
        if writes.len() == 0 {
            self
        } else {
            self.write(writes[0].0, writes[0].1).write_all(writes.drop_first())
        }
    }
}

/// Writes change only the active transaction.
pub proof fn lemma_write_all_keeps(m: MemView, writes: Seq<(u32, Seq<u8>)>)
    ensures
        m.write_all(writes) == (MemView { tx: m.write_all(writes).tx, ..m }),
        m.write_all(writes).tx.is_some() == m.tx.is_some(),
    decreases writes.len(),
{
    if writes.len() > 0 {
        lemma_write_all_keeps(m.write(writes[0].0, writes[0].1), writes.drop_first());
    }
}

/// Inside a write transaction, a read of a page just written returns the
/// bytes written.
pub proof fn lemma_read_your_writes(m: MemView, id: u32, data: Seq<u8>)
    requires
        m.in_write(),
    ensures
        m.write(id, data).read(None, id) == Some(data),
{
}

/// A session made before a commit reads, for every page, what was committed
/// when it was made, whatever the transaction wrote.
pub proof fn lemma_session_isolation(
    m: MemView,
    s: u128,
    writes: Seq<(u32, Seq<u8>)>,
    size: u64,
    id: u32,
)
    requires
        m.tx.is_none(),
    ensures
        m.new_session(s).start(TransactionType::Write).write_all(writes).set_size(size).commit().read(
            Some(s),
            id,
        ) == m.read(None, id),
{
    let m1 = m.new_session(s).start(TransactionType::Write);
    lemma_write_all_keeps(m1, writes);
}

/// Writing a page, committing and reading it back gives the bytes written.
pub proof fn lemma_write_commit_read(m: MemView, id: u32, data: Seq<u8>)
    requires
        m.tx.is_none(),
    ensures
        m.start(TransactionType::Write).write(id, data).commit().read(None, id) == Some(data),
{
}

/// Rolling back a write transaction, whatever it wrote, restores the state
/// from before it started.
pub proof fn lemma_rollback_restores(m: MemView, writes: Seq<(u32, Seq<u8>)>)
    requires
        m.tx.is_none(),
    ensures
        m.start(TransactionType::Write).write_all(writes).rollback() == m,
{
    lemma_write_all_keeps(m.start(TransactionType::Write), writes);
}

/// Making a session and removing it again leaves the state as it was; reads
/// in between change nothing since they take the state unchanged.
pub proof fn lemma_session_round_trip(m: MemView, s: u128)
    requires
        !m.sessions.contains_key(s),
    ensures
        m.new_session(s).remove_session(s) == m,
{
    assert(m.new_session(s).remove_session(s).sessions =~= m.sessions);
}

/// A transaction: its kind and its draft; after commit, the pages it wrote.
pub struct Transaction {
    pub ty: TransactionType,
    pub draft: SnapshotDraft,
    pub dirty_pages: im::OrdMap<u32, Vec<u8>>,
}

impl Transaction {
    pub open spec fn view(&self) -> TxView {
        TxView { ty: self.ty, image: self.draft.image(), dirty: self.draft.dirty() }
    }

    pub fn new(ty: TransactionType, snapshot: Snapshot) -> (r: Transaction)
        ensures
            r.view() == (TxView { ty, image: snapshot.image(), dirty: no_pages() }),
    {
        let draft = SnapshotDraft::new(snapshot);
        Transaction { ty, draft, dirty_pages: page_map_new() }
    }
}

/// The state of an in-memory store.
pub struct MemoryBackendInner {
    page_size: u32,
    snapshot: Snapshot,
    transaction: Option<Transaction>,
    state_map: SessionTable,
}

impl View for MemoryBackendInner {
    type V = MemView;

    closed spec fn view(&self) -> MemView {
        MemView {
            page_size: self.page_size,
            committed: self.snapshot.image(),
            tx: match self.transaction {
                Some(t) => Some(t.view()),
                None => None,
            },
            sessions: session_images(self.state_map),
        }
    }
}

impl MemoryBackendInner {
    /// A snapshot with the header page written over `snapshot`.
    fn force_write_first_block(snapshot: Snapshot, page_size: u32) -> (r: Snapshot)
        requires
            page_size >= 36,
        ensures
            r.image() == (PageImage {
                pages: snapshot.image().pages.insert(0, header_bytes(page_size as nat)),
                size: snapshot.image().size,
            }),
    {
        let header = RawPage::init_header(page_size);
        let mut draft = SnapshotDraft::new(snapshot);
        draft.write_page(&header);
        let (snapshot, _) = draft.commit();
        snapshot
    }

    /// A store of `init_block_count` pages holding only the header page.
    pub fn new(page_size: u32, init_block_count: u64) -> (r: MemoryBackendInner)
        requires
            page_size >= 36,
            init_block_count >= 1,
            init_block_count * page_size <= u64::MAX,
        ensures
            r@ == (MemView {
                page_size,
                committed: PageImage {
                    pages: no_pages().insert(0, header_bytes(page_size as nat)),
                    size: (init_block_count * page_size) as u64,
                },
                tx: None,
                sessions: no_sessions(),
            }),
    {
        let data_len = init_block_count * (page_size as u64);
        let snapshot = MemoryBackendInner::force_write_first_block(
            Snapshot::new(data_len),
            page_size,
        );
        MemoryBackendInner {
            page_size,
            snapshot,
            transaction: None,
            state_map: SessionTable::new(),
        }
    }

    /// Turns the active transaction's draft into the committed snapshot.
    fn merge_transaction(&mut self) -> (r: Transaction)
        requires
            old(self).transaction.is_some(),
        ensures
            final(self)@ == old(self)@.commit(),
            r.ty == old(self)@.tx.unwrap().ty,
            page_map_contents(r.dirty_pages) == old(self)@.tx.unwrap().dirty,
    {
        let state = self.transaction.take().unwrap();
        let Transaction { ty, draft, dirty_pages: _ } = state;
        let (snapshot, dirty_pages) = draft.commit();
        self.snapshot = snapshot;
        // The draft went into the snapshot; the transaction keeps an empty one.
        Transaction { ty, draft: SnapshotDraft::new(Snapshot::new(0)), dirty_pages }
    }

    /// The page a read of `page_id` returns, given what the view stores under
    /// that id and the view's database size.
    fn page_from(&self, page_id: u32, found: Option<Vec<u8>>, size: u64) -> (r: Result<RawPage, DbErr>)
        ensures
            found.is_some() ==> r == Ok::<RawPage, DbErr>(RawPage { page_id, data: found.unwrap() }),
            found.is_none() && (page_id as int) * (self.page_size as int) < size ==> r.is_ok()
                && r.unwrap().page_id == page_id && r.unwrap().data@ == crate::page::zeros(
                self.page_size as nat,
            ),
            found.is_none() && (page_id as int) * (self.page_size as int) >= size ==> r
                == Err::<RawPage, DbErr>(DbErr::PageNotExist(page_id)),
    {
        match found {
            Some(data) => Ok(RawPage { page_id, data }),
            None => {
                proof {
                    crate::page::lemma_page_end_fits(page_id, self.page_size);
                }
                if (page_id as u64) * (self.page_size as u64) < size {
                    Ok(RawPage::new(page_id, self.page_size))
                } else {
                    Err(DbErr::PageNotExist(page_id))
                }
            },
        }
    }

    /// Reads a page as the active transaction (or the committed state) sees it.
    pub fn read_page_main(&self, page_id: u32) -> (r: Result<RawPage, DbErr>)
        ensures
            self@.read(None, page_id).is_some() ==> r.is_ok() && r.unwrap().page_id == page_id
                && r.unwrap().data@ == self@.read(None, page_id).unwrap(),
            self@.read(None, page_id).is_none() ==> r == Err::<RawPage, DbErr>(
                DbErr::PageNotExist(page_id),
            ),
    {
        match &self.transaction {
            Some(transaction) => {
                let found = transaction.draft.read_page(page_id);
                self.page_from(page_id, found, transaction.draft.db_file_size())
            },
            None => {
                let found = self.snapshot.read_page(page_id);
                self.page_from(page_id, found, self.snapshot.db_file_size())
            },
        }
    }

    /// Reads a page in a session's snapshot, or as `read_page_main` without one.
    pub fn read_page(&self, page_id: u32, session_id: Option<u128>) -> (r: Result<RawPage, DbErr>)
        ensures
            !self@.session_ok(session_id) ==> r == Err::<RawPage, DbErr>(
                DbErr::InvalidSession(session_id.unwrap()),
            ),
            self@.session_ok(session_id) && self@.read(session_id, page_id).is_some() ==> r.is_ok()
                && r.unwrap().page_id == page_id && r.unwrap().data@ == self@.read(
                session_id,
                page_id,
            ).unwrap(),
            self@.session_ok(session_id) && self@.read(session_id, page_id).is_none() ==> r
                == Err::<RawPage, DbErr>(DbErr::PageNotExist(page_id)),
    {
        match session_id {
            Some(id) => {
                match self.state_map.get(id) {
                    Some(snapshot) => {
                        let found = snapshot.read_page(page_id);
                        self.page_from(page_id, found, snapshot.db_file_size())
                    },
                    None => Err(DbErr::InvalidSession(id)),
                }
            },
            None => self.read_page_main(page_id),
        }
    }

    /// Writes a page into the active write transaction, growing the database
    /// size to cover it.
    pub fn write_page(&mut self, page: &RawPage, session_id: Option<u128>) -> (r: Result<(), DbErr>)
        requires
            session_id.is_none(),
        ensures
            old(self)@.in_write() ==> r.is_ok(),
            !old(self)@.in_write() ==> r == Err::<(), DbErr>(DbErr::CannotWriteDbWithoutTransaction),
            final(self)@ == old(self)@.write(page.page_id, page.data@),
    {
        let in_write = match &self.transaction {
            Some(state) => state.ty == TransactionType::Write,
            None => false,
        };
        if !in_write {
            return Err(DbErr::CannotWriteDbWithoutTransaction);
        }
        let page_size = self.page_size;
        let mut state = self.transaction.take().unwrap();
        state.draft.write_page(page);
        proof {
            crate::page::lemma_page_end_fits(page.page_id, page_size);
        }
        let expected_db_size = (page.page_id as u64 + 1) * (page_size as u64);
        if expected_db_size > state.draft.db_file_size() {
            state.draft.set_db_file_size(expected_db_size);
        }
        self.transaction = Some(state);
        Ok(())
    }

    /// Publishes the active transaction; returns it with the pages it wrote.
    pub fn commit(&mut self) -> (r: Result<Transaction, DbErr>)
        ensures
            old(self)@.tx.is_none() ==> r == Err::<Transaction, DbErr>(
                DbErr::CannotWriteDbWithoutTransaction,
            ),
            old(self)@.tx.is_some() ==> r.is_ok() && r.unwrap().ty == old(self)@.tx.unwrap().ty
                && page_map_contents(r.unwrap().dirty_pages) == old(self)@.tx.unwrap().dirty,
            final(self)@ == old(self)@.commit(),
    {
        if self.transaction.is_none() {
            return Err(DbErr::CannotWriteDbWithoutTransaction);
        }
        let transaction = self.merge_transaction();
        Ok(transaction)
    }

    /// The logical size in bytes, as reads outside sessions see it.
    pub fn db_size(&self) -> (r: u64)
        ensures
            r == self@.main_image().size,
    {
        match &self.transaction {
            Some(transaction) => transaction.draft.db_file_size(),
            None => self.snapshot.db_file_size(),
        }
    }

    /// Sets the size of the active write transaction; otherwise nothing changes.
    pub fn set_db_size(&mut self, size: u64) -> (r: Result<(), DbErr>)
        ensures
            r.is_ok(),
            final(self)@ == old(self)@.set_size(size),
    {
        let in_write = match &self.transaction {
            Some(state) => state.ty == TransactionType::Write,
            None => false,
        };
        if in_write {
            let mut transaction = self.transaction.take().unwrap();
            transaction.draft.set_db_file_size(size);
            self.transaction = Some(transaction);
        }
        Ok(())
    }

    pub fn transaction_type(&self) -> (r: Option<TransactionType>)
        ensures
            r == (match self@.tx {
                Some(t) => Some(t.ty),
                None => None::<TransactionType>,
            }),
    {
        match &self.transaction {
            Some(state) => Some(state.ty),
            None => None,
        }
    }

    /// Makes a write transaction active: one already active stays with its
    /// writes; otherwise a fresh one on the committed state.
    pub fn upgrade_read_transaction_to_write(&mut self) -> (r: Result<(), DbErr>)
        ensures
            r.is_ok(),
            final(self)@ == old(self)@.upgrade(),
    {
        let in_write = match &self.transaction {
            Some(state) => state.ty == TransactionType::Write,
            None => false,
        };
        if !in_write {
            let new_state = Transaction::new(TransactionType::Write, self.snapshot.share());
            self.transaction = Some(new_state);
        }
        Ok(())
    }

    /// Drops the active transaction.
    pub fn rollback(&mut self) -> (r: Result<(), DbErr>)
        ensures
            old(self)@.tx.is_some() ==> r.is_ok(),
            old(self)@.tx.is_none() ==> r == Err::<(), DbErr>(DbErr::RollbackNotInTransaction),
            final(self)@ == old(self)@.rollback(),
    {
        if self.transaction.is_none() {
            return Err(DbErr::RollbackNotInTransaction);
        }
        self.transaction = None;
        Ok(())
    }

    pub fn start_transaction(&mut self, ty: TransactionType) -> (r: Result<(), DbErr>)
        ensures
            old(self)@.tx.is_none() ==> r.is_ok(),
            old(self)@.tx.is_some() ==> r == Err::<(), DbErr>(DbErr::Busy),
            final(self)@ == old(self)@.start(ty),
    {
        if self.transaction.is_some() {
            return Err(DbErr::Busy);
        }
        let new_state = Transaction::new(ty, self.snapshot.share());
        self.transaction = Some(new_state);
        Ok(())
    }

    /// Writes a page straight into the committed state, growing the size to
    /// cover it, as replaying a persisted batch does.
    pub fn replay_page(&mut self, page: &RawPage)
        requires
            old(self)@.tx.is_none(),
        ensures
            final(self)@ == (MemView {
                committed: old(self)@.committed.write(old(self)@.page_size, page.page_id, page.data@),
                ..old(self)@
            }),
    {
        let mut draft = SnapshotDraft::new(self.snapshot.share());
        draft.write_page(page);
        proof {
            crate::page::lemma_page_end_fits(page.page_id, self.page_size);
        }
        let expected_db_size = (page.page_id as u64 + 1) * (self.page_size as u64);
        if expected_db_size > draft.db_file_size() {
            draft.set_db_file_size(expected_db_size);
        }
        let (snapshot, _) = draft.commit();
        self.snapshot = snapshot;
    }

    /// Pins a read session to the committed state.
    pub fn new_session(&mut self, id: u128) -> (r: Result<(), DbErr>)
        ensures
            r.is_ok(),
            final(self)@ == old(self)@.new_session(id),
    {
        let snapshot = self.snapshot.share();
        self.state_map.insert(id, snapshot);
        Ok(())
    }

    pub fn remove_session(&mut self, id: u128) -> (r: Result<(), DbErr>)
        ensures
            r.is_ok(),
            final(self)@ == old(self)@.remove_session(id),
    {
        self.state_map.remove(id);
        Ok(())
    }
}

} // verus!
