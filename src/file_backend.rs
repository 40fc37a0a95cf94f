//! The file backend's decisions: how a store file is opened, where each read
//! is answered from, and when a commit checkpoints. The caller performs the
//! file I/O that each decision names.
use vstd::prelude::*;
use crate::config::Config;
use crate::error::DbErr;
use crate::file_sessions::file_session_views;
use crate::file_sessions::no_file_sessions;
use crate::file_sessions::FileSessionTable;
use crate::journal::JournalManager;
use crate::journal::JournalSnapshot;
use crate::journal::JournalView;
use crate::journal::replay;
use crate::journal::RecordHeader;
use crate::journal::record_size;
use crate::page::database_version;
use crate::page::database_version_spec;
use crate::page::RawPage;
use crate::page_cache::PageCache;
use crate::transaction::TransactionType;

verus! {

/// How an existing or new store file is taken into use.
#[derive(Debug, PartialEq, Eq, Structural)]
pub enum InitDbResult {
    /// The file was empty: grow it to `db_file_size` bytes and write a fresh
    /// header page.
    Fresh { db_file_size: u64 },
    /// The file holds a store of `db_file_size` bytes; when `check_version`
    /// holds, its version bytes must be checked.
    Existing { db_file_size: u64, check_version: bool },
}

/// Decides how to open a store file of `file_len` bytes.
pub fn init_db(file_len: u64, page_size: u32, init_block_count: u64, check_db_version: bool) -> (r:
    Result<InitDbResult, DbErr>)
    requires
        page_size > 0,
        init_block_count * page_size <= u64::MAX,
    ensures
        file_len == 0 ==> r == Ok::<InitDbResult, DbErr>(
            InitDbResult::Fresh { db_file_size: (init_block_count * page_size) as u64 },
        ),
        file_len != 0 && file_len % (page_size as u64) == 0 ==> r == Ok::<InitDbResult, DbErr>(
            InitDbResult::Existing { db_file_size: file_len, check_version: check_db_version },
        ),
        file_len % (page_size as u64) != 0 ==> r == Err::<InitDbResult, DbErr>(
            DbErr::NotAValidDatabase,
        ),
{
    if file_len == 0 {
        Ok(InitDbResult::Fresh { db_file_size: init_block_count * (page_size as u64) })
    } else if file_len % (page_size as u64) == 0 {
        Ok(InitDbResult::Existing { db_file_size: file_len, check_version: check_db_version })
    } else {
        Err(DbErr::NotAValidDatabase)
    }
}

/// Accepts the version bytes read at offset 32 when they are this library's.
pub fn check_db_version(actual: [u8; 4]) -> (r: Result<(), DbErr>)
    ensures
        actual@ == database_version_spec() ==> r.is_ok(),
        actual@ != database_version_spec() ==> match r {
            Err(DbErr::VersionMismatch { expected, actual: found }) => expected@
                == database_version_spec() && found == actual,
            _ => false,
        },
{
    let expected = database_version();
    let mut i: usize = 0;
    while i < 4
        invariant
            i <= 4,
            expected@ == database_version_spec(),
            forall|j: int| 0 <= j < i ==> actual@[j] == expected@[j],
        decreases 4 - i,
    {
        if actual[i] != expected[i] {
            return Err(DbErr::VersionMismatch { expected, actual });
        }
        i = i + 1;
    }
    assert(actual@ =~= expected@);
    Ok(())
}

/// Whether the main file, `file_len` bytes long, holds all of page
/// `page_id`; a page it does not hold reads as zeros.
pub fn main_file_has_page(file_len: u64, page_id: u32, page_size: u32) -> (r: bool)
    ensures
        r == (((page_id as int) + 1) * (page_size as int) <= file_len),
{
    proof {
        crate::page::lemma_page_end_fits(page_id, page_size);
    }
    (page_id as u64 + 1) * (page_size as u64) <= file_len
}

/// The journal that belongs to the store at `db_path`.
pub fn mk_journal_path(db_path: &str) -> (r: String)
    ensures
        r@ == db_path@ + ".journal"@,
{
    let path = db_path.to_owned();
    path.concat(".journal")
}

/// Where a read is answered from.
#[derive(Debug, PartialEq, Eq)]
pub enum ReadSource {
    /// The page as the cache holds it.
    Cached(RawPage),
    /// The image in the journal record at this offset, after its header.
    Journal(u64),
    /// The page of the main file; zeros where the file is shorter.
    MainFile,
}

/// What the caller does to finish a commit.
#[derive(Debug, PartialEq, Eq, Structural)]
pub struct CommitPlan {
    /// Where to write the commit marker, if the transaction wrote.
    pub marker: Option<u64>,
    /// Whether to checkpoint the journal afterwards.
    pub checkpoint: bool,
}

/// The observable state of a file backend's index.
pub struct FileView {
    pub journal: JournalView,
    pub sessions: Map<u128, JournalSnapshot>,
    pub journal_full_size: u64,
}

/// Where a read of `id` goes when the cache does not answer it: the record
/// the offsets name, else the main file within the size, else nowhere.
pub open spec fn source_of(offsets: Map<u32, u64>, db_size: u64, page_size: u32, id: u32) -> Result<
    ReadSource,
    DbErr,
> {
    if offsets.contains_key(id) {
        Ok(ReadSource::Journal(offsets[id]))
    } else if (id as int) * (page_size as int) < db_size {
        Ok(ReadSource::MainFile)
    } else {
        Err(DbErr::PageNotExist(id))
    }
}

/// The index of a file backend: the journal's, the live sessions, the page
/// cache, and the settings.
pub struct FileBackendCore {
    journal: JournalManager,
    state_map: FileSessionTable,
    page_cache: PageCache,
    journal_full_size: u64,
}

impl View for FileBackendCore {
    type V = FileView;

    closed spec fn view(&self) -> FileView {
        FileView {
            journal: self.journal@,
            sessions: file_session_views(self.state_map),
            journal_full_size: self.journal_full_size,
        }
    }
}

impl FileBackendCore {
    /// The page cache that reads outside sessions consult first.
    pub closed spec fn cache(&self) -> PageCache {
        self.page_cache
    }

    pub open spec fn wf(&self) -> bool {
        self@.journal.wf() && self.cache().wf()
    }

    /// The index of a store whose main file holds `db_file_size` bytes and
    /// whose journal holds records with the given headers: what recovery
    /// reads from them, with an empty cache.
    pub fn open(page_size: u32, config: &Config, db_file_size: u64, headers: &Vec<RecordHeader>) -> (r:
        FileBackendCore)
        requires
            headers@.len() * record_size(page_size) <= u64::MAX,
        ensures
            r.wf(),
            r@.journal.page_size == page_size,
            r@.journal.records == headers@.subrange(
                0,
                replay(headers@, page_size).committed_records as int,
            ),
            r@.journal.committed == replay(headers@, page_size).committed,
            r@.journal.db_size == (match replay(headers@, page_size).db_size {
                Some(s) => s,
                None => db_file_size,
            }),
            r@.journal.ty.is_none(),
            r@.sessions == no_file_sessions(),
            r@.journal_full_size == config.journal_full_size,
            r.cache().entries().len() == 0,
    {
        FileBackendCore {
            journal: JournalManager::recover(page_size, db_file_size, headers),
            state_map: FileSessionTable::new(),
            page_cache: PageCache::new_default(),
            journal_full_size: config.journal_full_size,
        }
    }

    /// Bytes of the journal that its records take.
    pub fn journal_len(&self) -> (r: u64)
        ensures
            r == self@.journal.len,
    {
        self.journal.len()
    }

    pub open spec fn journal_full(&self) -> bool {
        self@.journal.len >= self@.journal_full_size
    }

    #[inline]
    pub fn is_journal_full(&self) -> (r: bool)
        ensures
            r == self.journal_full(),
    {
        self.journal.len() >= self.journal_full_size
    }

    /// Where page `page_id` is read from: in a session, from the records it
    /// pinned, else the main file; outside sessions, from the cache first,
    /// then the journal, then the main file. Past the view's size with no
    /// record, the read fails.
    pub fn read_page(&self, page_id: u32, session_id: Option<u128>) -> (r: Result<ReadSource, DbErr>)
        ensures
            session_id.is_some() && !self@.sessions.contains_key(session_id.unwrap()) ==> r
                == Err::<ReadSource, DbErr>(DbErr::InvalidSession(session_id.unwrap())),
            session_id.is_some() && self@.sessions.contains_key(session_id.unwrap()) ==> r == source_of(
                self@.sessions[session_id.unwrap()].offsets,
                self@.sessions[session_id.unwrap()].db_size,
                self@.journal.page_size,
                page_id,
            ),
            session_id.is_none() && self.cache().has_id(page_id) ==> r.is_ok() && match r.unwrap() {
                ReadSource::Cached(p) => p.page_id == page_id && self.cache().holds(page_id, p.data@),
                _ => false,
            },
            session_id.is_none() && !self.cache().has_id(page_id) ==> r == source_of(
                self@.journal.main_offsets(),
                self@.journal.main_db_size(),
                self@.journal.page_size,
                page_id,
            ),
    {
        proof {
            crate::page::lemma_page_end_fits(page_id, self.journal@.page_size);
        }
        let page_size = self.journal.page_size();
        match session_id {
            Some(id) => match self.state_map.get(id) {
                Some(state) => match self.journal.read_page(page_id, state) {
                    Some(offset) => Ok(ReadSource::Journal(offset)),
                    None => if (page_id as u64) * (page_size as u64) < state.db_size {
                        Ok(ReadSource::MainFile)
                    } else {
                        Err(DbErr::PageNotExist(page_id))
                    },
                },
                None => Err(DbErr::InvalidSession(id)),
            },
            None => match self.page_cache.get_from_cache(page_id) {
                Some(page) => Ok(ReadSource::Cached(page)),
                None => match self.journal.read_page_main(page_id) {
                    Some(offset) => Ok(ReadSource::Journal(offset)),
                    None => if (page_id as u64) * (page_size as u64) < self.journal.record_db_size() {
                        Ok(ReadSource::MainFile)
                    } else {
                        Err(DbErr::PageNotExist(page_id))
                    },
                },
            },
        }
    }

    /// Keeps a page the caller read outside any session in the cache.
    pub fn cache_page(&mut self, page: &RawPage)
        requires
            old(self).wf(),
        ensures
            final(self).wf(),
            final(self)@ == old(self)@,
            final(self).cache().holds(page.page_id, page.data@),
            forall|id: u32, data: Seq<u8>|
                #[trigger] final(self).cache().holds(id, data) ==> (id == page.page_id && data
                    == page.data@) || (id != page.page_id && old(self).cache().holds(id, data)),
    {
        self.page_cache.insert_to_cache(page);
    }

    /// Reserves the journal record for a write of `page` and caches it; the
    /// caller writes the record at the returned offset.
    pub fn write_page(&mut self, page: &RawPage, session_id: Option<u128>) -> (r: Result<u64, DbErr>)
        requires
            old(self).wf(),
            session_id.is_none(),
        ensures
            final(self).wf(),
            final(self)@.sessions == old(self)@.sessions,
            final(self)@.journal_full_size == old(self)@.journal_full_size,
            !old(self)@.journal.in_write() ==> r == Err::<u64, DbErr>(
                DbErr::CannotWriteDbWithoutTransaction,
            ),
            old(self)@.journal.in_write() && !old(self)@.journal.has_room() ==> r == Err::<u64, DbErr>(
                DbErr::JournalOverflow,
            ),
            old(self)@.journal.in_write() && old(self)@.journal.has_room() ==> r == Ok::<u64, DbErr>(
                old(self)@.journal.len,
            ) && final(self)@.journal == old(self)@.journal.append(page.page_id) && final(self).cache().holds(page.page_id, page.data@),
            r.is_ok() ==> forall|id: u32, data: Seq<u8>|
                #[trigger] final(self).cache().holds(id, data) ==> (id == page.page_id && data
                    == page.data@) || (id != page.page_id && old(self).cache().holds(id, data)),
            r.is_err() ==> final(self)@ == old(self)@ && final(self).cache() == old(self).cache(),
    {
        let r = self.journal.append_raw_page(page.page_id);
        if r.is_ok() {
            self.page_cache.insert_to_cache(page);
        }
        r
    }

    /// Where the next commit puts its marker, without committing: the caller
    /// writes and syncs the marker there before calling `commit`.
    pub fn commit_marker(&self) -> (r: Result<Option<u64>, DbErr>)
        ensures
            self@.journal.ty.is_none() ==> r == Err::<Option<u64>, DbErr>(
                DbErr::CannotWriteDbWithoutTransaction,
            ),
            self@.journal.ty == Some(TransactionType::Read) ==> r == Ok::<Option<u64>, DbErr>(None),
            self@.journal.in_write() && !self@.journal.has_room() ==> r == Err::<Option<u64>, DbErr>(
                DbErr::JournalOverflow,
            ),
            self@.journal.in_write() && self@.journal.has_room() ==> r == Ok::<Option<u64>, DbErr>(
                Some(self@.journal.len),
            ),
    {
        self.journal.commit_marker()
    }

    /// Commits the active transaction. The caller checkpoints when told to:
    /// only when the journal is full and no session pins its records.
    pub fn commit(&mut self) -> (r: Result<CommitPlan, DbErr>)
        requires
            old(self).wf(),
        ensures
            final(self).wf(),
            final(self)@.sessions == old(self)@.sessions,
            final(self)@.journal_full_size == old(self)@.journal_full_size,
            final(self).cache() == old(self).cache(),
            old(self)@.journal.ty.is_none() ==> r == Err::<CommitPlan, DbErr>(
                DbErr::CannotWriteDbWithoutTransaction,
            ),
            old(self)@.journal.ty == Some(TransactionType::Read) ==> r.is_ok() && r.unwrap().marker
                == None::<u64> && final(self)@.journal == (JournalView {
                ty: None,
                ..old(self)@.journal
            }),
            old(self)@.journal.in_write() && !old(self)@.journal.has_room() ==> r == Err::<
                CommitPlan,
                DbErr,
            >(DbErr::JournalOverflow),
            old(self)@.journal.in_write() && old(self)@.journal.has_room() ==> r.is_ok()
                && r.unwrap().marker == Some(old(self)@.journal.len) && final(self)@.journal == old(self)@.journal.commit_write(),
            r.is_ok() ==> r.unwrap().checkpoint == (final(self).journal_full() && old(self)@.sessions
                == no_file_sessions()),
            r.is_err() ==> final(self)@ == old(self)@,
    {
        let ghost j0 = self.journal@;
        assert(j0.ty.is_none() || j0.ty == Some(TransactionType::Read) || j0.in_write());
        let marker = match self.journal.commit() {
            Ok(marker) => marker,
            Err(e) => {
                return Err(e);
            },
        };
        let checkpoint = self.is_journal_full() && self.state_map.is_empty();
        Ok(CommitPlan { marker, checkpoint })
    }

    /// The committed records to copy into the main file.
    pub fn checkpoint_plan(&self) -> (r: Vec<(u32, u64)>)
        ensures
            forall|i: int, j: int| 0 <= i < j < r@.len() ==> r@[i].0 < r@[j].0,
            forall|i: int|
                0 <= i < r@.len() ==> self@.journal.committed.contains_key(#[trigger] r@[i].0)
                    && self@.journal.committed[r@[i].0] == r@[i].1,
            forall|k: u32|
                self@.journal.committed.contains_key(k) ==> exists|i: int|
                    0 <= i < r@.len() && #[trigger] r@[i].0 == k,
    {
        self.journal.checkpoint_plan()
    }

    /// Empties the journal once the caller copied the plan into the main
    /// file. Refused while a session pins the records or a transaction is
    /// active.
    pub fn finish_checkpoint(&mut self) -> (r: Result<(), DbErr>)
        requires
            old(self).wf(),
        ensures
            final(self).wf(),
            final(self).cache() == old(self).cache(),
            (old(self)@.sessions != no_file_sessions() || old(self)@.journal.ty.is_some()) ==> r
                == Err::<(), DbErr>(DbErr::Busy) && final(self)@ == old(self)@,
            old(self)@.sessions == no_file_sessions() && old(self)@.journal.ty.is_none() ==> r.is_ok()
                && final(self)@.sessions == old(self)@.sessions && final(self)@.journal_full_size
                == old(self)@.journal_full_size && final(self)@.journal == (JournalView {
                records: Seq::<RecordHeader>::empty(),
                committed: Map::<u32, u64>::empty(),
                len: 0,
                committed_len: 0,
                ..old(self)@.journal
            }),
    {
        if !self.state_map.is_empty() {
            return Err(DbErr::Busy);
        }
        self.journal.finish_checkpoint()
    }

    pub fn db_size(&self) -> (r: u64)
        ensures
            r == self@.journal.main_db_size(),
    {
        self.journal.record_db_size()
    }

    /// Sets the size of the active write transaction; otherwise nothing changes.
    pub fn set_db_size(&mut self, size: u64) -> (r: Result<(), DbErr>)
        requires
            old(self).wf(),
        ensures
            final(self).wf(),
            r.is_ok(),
            final(self).cache() == old(self).cache(),
            old(self)@.journal.in_write() ==> final(self)@ == (FileView {
                journal: JournalView { tx_db_size: size, ..old(self)@.journal },
                ..old(self)@
            }),
            !old(self)@.journal.in_write() ==> final(self)@ == old(self)@,
    {
        self.journal.expand_db_size(size)
    }

    pub fn transaction_type(&self) -> (r: Option<TransactionType>)
        ensures
            r == self@.journal.ty,
    {
        self.journal.transaction_type()
    }

    pub fn upgrade_read_transaction_to_write(&mut self) -> (r: Result<(), DbErr>)
        requires
            old(self).wf(),
        ensures
            final(self).wf(),
            r.is_ok(),
            final(self).cache() == old(self).cache(),
            final(self)@ == (FileView {
                journal: JournalView {
                    ty: Some(TransactionType::Write),
                    tx_db_size: if old(self)@.journal.ty.is_some() {
                        old(self)@.journal.tx_db_size
                    } else {
                        old(self)@.journal.db_size
                    },
                    ..old(self)@.journal
                },
                ..old(self)@
            }),
    {
        self.journal.upgrade_read_transaction_to_write()
    }

    /// Drops the active transaction and empties the cache, which may hold its
    /// pages; the caller truncates the journal to the returned length.
    pub fn rollback(&mut self) -> (r: Result<u64, DbErr>)
        requires
            old(self).wf(),
        ensures
            final(self).wf(),
            old(self)@.journal.ty.is_none() ==> r == Err::<u64, DbErr>(DbErr::RollbackNotInTransaction)
                && final(self)@ == old(self)@ && final(self).cache() == old(self).cache(),
            old(self)@.journal.ty.is_some() ==> r == Ok::<u64, DbErr>(old(self)@.journal.committed_len)
                && final(self)@ == (FileView { journal: old(self)@.journal.rolled_back(), ..old(self)@ })
                && final(self).cache().entries().len() == 0,
            final(self)@.journal.main_offsets() == old(self)@.journal.committed || old(self)@.journal.ty.is_none(),
    {
        let r = self.journal.rollback();
        if r.is_ok() {
            self.page_cache = PageCache::new_default();
        }
        assert(self@.journal.main_offsets() =~= self@.journal.committed || old(self)@.journal.ty.is_none());
        r
    }

    pub fn start_transaction(&mut self, ty: TransactionType) -> (r: Result<(), DbErr>)
        requires
            old(self).wf(),
        ensures
            final(self).wf(),
            final(self).cache() == old(self).cache(),
            old(self)@.journal.ty.is_some() ==> r == Err::<(), DbErr>(DbErr::Busy) && final(self)@
                == old(self)@,
            old(self)@.journal.ty.is_none() ==> r.is_ok() && final(self)@ == (FileView {
                journal: JournalView {
                    ty: Some(ty),
                    tx_db_size: old(self)@.journal.db_size,
                    ..old(self)@.journal
                },
                ..old(self)@
            }),
    {
        self.journal.start_transaction(ty)
    }

    /// Pins a read session to the committed state of the journal.
    pub fn new_session(&mut self, id: u128) -> (r: Result<(), DbErr>)
        requires
            old(self).wf(),
        ensures
            final(self).wf(),
            r.is_ok(),
            final(self).cache() == old(self).cache(),
            final(self)@ == (FileView {
                sessions: old(self)@.sessions.insert(id, old(self)@.journal.snapshot()),
                ..old(self)@
            }),
    {
        let state = self.journal.new_state();
        self.state_map.insert(id, state);
        Ok(())
    }

    pub fn remove_session(&mut self, id: u128) -> (r: Result<(), DbErr>)
        requires
            old(self).wf(),
        ensures
            final(self).wf(),
            r.is_ok(),
            final(self).cache() == old(self).cache(),
            final(self)@ == (FileView { sessions: old(self)@.sessions.remove(id), ..old(self)@ }),
    {
        self.state_map.remove(id);
        Ok(())
    }

    /// Releases every session, as closing the store does before its final
    /// checkpoint.
    pub fn clear_sessions(&mut self)
        requires
            old(self).wf(),
        ensures
            final(self).wf(),
            final(self).cache() == old(self).cache(),
            final(self)@ == (FileView { sessions: no_file_sessions(), ..old(self)@ }),
    {
        self.state_map.clear();
    }
}

} // verus!
