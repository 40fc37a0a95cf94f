//! The journal of the file backend: an append-only sequence of fixed-size
//! records (page images and commit markers) that guards the main file, and
//! the index that tells which record holds the visible image of each page.
//! This module decides where records go and what each reader sees; reading
//! and writing the bytes is left to the caller.
use vstd::prelude::*;
use crate::error::DbErr;
use crate::offset_map::no_offsets;
use crate::offset_map::offset_map_clone;
use crate::offset_map::offset_map_contents;
use crate::offset_map::offset_map_entries;
use crate::offset_map::offset_map_get;
use crate::offset_map::offset_map_insert;
use crate::offset_map::offset_map_merge;
use crate::offset_map::offset_map_new;
use crate::transaction::TransactionType;

verus! {

/// Bytes of a record's header; the page image follows it.
pub const RECORD_HEADER_SIZE: u64 = 16;

/// Bytes of one record: header and page image.
pub open spec fn record_size(page_size: u32) -> int {
    RECORD_HEADER_SIZE + page_size
}

/// The kind of a journal record.
#[derive(Debug, Clone, Copy, PartialEq, Eq, Structural)]
pub enum RecordKind {
    /// The image of one page, not visible until a commit marker follows.
    Page,
    /// Ends a batch: every page record before it is committed.
    Commit,
}

/// What a record's header holds: its kind, the page id of a page record, and
/// the database size that a commit marker records.
#[derive(Debug, Clone, Copy, PartialEq, Eq, Structural)]
pub struct RecordHeader {
    pub kind: RecordKind,
    pub page_id: u32,
    pub db_size: u64,
}

/// The byte that tags a record's kind.
pub open spec fn kind_tag(kind: RecordKind) -> u8 {
    match kind {
        RecordKind::Page => 1,
        RecordKind::Commit => 2,
    }
}

/// The little-endian bytes of `v`, lowest first.
pub open spec fn le_u32(v: u32) -> Seq<u8> {
    seq![(v & 0xff) as u8, ((v >> 8) & 0xff) as u8, ((v >> 16) & 0xff) as u8, ((v >> 24) & 0xff) as u8]
}

/// The little-endian bytes of `v`, lowest first.
pub open spec fn le_u64(v: u64) -> Seq<u8> {
    le_u32((v & 0xffff_ffff) as u32) + le_u32((v >> 32) as u32)
}

/// A record header on disk: the kind tag, three zero bytes, the page id and
/// the database size, little-endian.
pub open spec fn header_bytes_of(h: RecordHeader) -> Seq<u8> {
    seq![kind_tag(h.kind), 0u8, 0u8, 0u8] + le_u32(h.page_id) + le_u64(h.db_size)
}

fn u32_to_le(v: u32, out: &mut Vec<u8>)
    ensures
        final(out)@ == old(out)@ + le_u32(v),
{
    out.push((v & 0xff) as u8);
    out.push(((v >> 8) & 0xff) as u8);
    out.push(((v >> 16) & 0xff) as u8);
    out.push(((v >> 24) & 0xff) as u8);
    assert(final(out)@ =~= old(out)@ + le_u32(v));
}

fn u32_from_le(b0: u8, b1: u8, b2: u8, b3: u8) -> (r: u32)
    ensures
        le_u32(r) == seq![b0, b1, b2, b3],
{
    let r = (b0 as u32) | ((b1 as u32) << 8) | ((b2 as u32) << 16) | ((b3 as u32) << 24);
    assert((r & 0xff) as u8 == b0 && ((r >> 8) & 0xff) as u8 == b1 && ((r >> 16) & 0xff) as u8 == b2
        && ((r >> 24) & 0xff) as u8 == b3) by (bit_vector)
        requires
            r == (b0 as u32) | ((b1 as u32) << 8) | ((b2 as u32) << 16) | ((b3 as u32) << 24),
    ;
    assert(le_u32(r) =~= seq![b0, b1, b2, b3]);
    r
}

/// Encodes a record header as its bytes on disk.
pub fn encode_record_header(h: RecordHeader) -> (r: Vec<u8>)
    ensures
        r@ == header_bytes_of(h),
{
    let mut out: Vec<u8> = Vec::new();
    let tag: u8 = match h.kind {
        RecordKind::Page => 1,
        RecordKind::Commit => 2,
    };
    out.push(tag);
    out.push(0u8);
    out.push(0u8);
    out.push(0u8);
    u32_to_le(h.page_id, &mut out);
    u32_to_le((h.db_size & 0xffff_ffff) as u32, &mut out);
    u32_to_le((h.db_size >> 32) as u32, &mut out);
    assert(out@ =~= header_bytes_of(h));
    out
}

/// Decodes the first bytes of a record as its header; `None` where they
/// are too few, or tag no known kind.
pub fn decode_record_header(bytes: &[u8]) -> (r: Option<RecordHeader>)
    ensures
        r.is_some() <==> (bytes@.len() >= RECORD_HEADER_SIZE && (bytes@[0] == 1 || bytes@[0] == 2)
            && bytes@.subrange(1, 4) == seq![0u8, 0u8, 0u8]),
        r.is_some() ==> header_bytes_of(r.unwrap()) == bytes@.subrange(0, RECORD_HEADER_SIZE as int),
{
    if bytes.len() < 16 {
        return None;
    }
    let kind = if bytes[0] == 1 {
        RecordKind::Page
    } else if bytes[0] == 2 {
        RecordKind::Commit
    } else {
        return None;
    };
    if bytes[1] != 0 || bytes[2] != 0 || bytes[3] != 0 {
        assert(bytes@.subrange(1, 4) != seq![0u8, 0u8, 0u8]) by {
            let z = seq![0u8, 0u8, 0u8];
            if bytes@[1] != 0 {
                assert(bytes@.subrange(1, 4)[0] != z[0]);
            } else if bytes@[2] != 0 {
                assert(bytes@.subrange(1, 4)[1] != z[1]);
            } else {
                assert(bytes@.subrange(1, 4)[2] != z[2]);
            }
        }
        return None;
    }
    let page_id = u32_from_le(bytes[4], bytes[5], bytes[6], bytes[7]);
    let low = u32_from_le(bytes[8], bytes[9], bytes[10], bytes[11]);
    let high = u32_from_le(bytes[12], bytes[13], bytes[14], bytes[15]);
    let db_size = (low as u64) | ((high as u64) << 32);
    assert((db_size & 0xffff_ffff) as u32 == low && (db_size >> 32) as u32 == high) by (bit_vector)
        requires
            db_size == (low as u64) | ((high as u64) << 32),
    ;
    let h = RecordHeader { kind, page_id, db_size };
    assert(bytes@.subrange(1, 4) =~= seq![0u8, 0u8, 0u8]);
    assert(header_bytes_of(h) =~= bytes@.subrange(0, 16));
    Some(h)
}

/// Decoding the bytes of an encoded header gives the header back.
pub proof fn lemma_header_round_trip(h: RecordHeader)
    ensures
        header_bytes_of(h).len() == RECORD_HEADER_SIZE,
        header_bytes_of(h)[0] == 1 || header_bytes_of(h)[0] == 2,
        header_bytes_of(h).subrange(1, 4) == seq![0u8, 0u8, 0u8],
        forall|g: RecordHeader| header_bytes_of(g) == header_bytes_of(h) ==> g == h,
{
    assert(header_bytes_of(h).subrange(1, 4) =~= seq![0u8, 0u8, 0u8]);
    assert forall|g: RecordHeader| header_bytes_of(g) == header_bytes_of(h) implies g == h by {
        let a = header_bytes_of(g);
        let b = header_bytes_of(h);
        assert(a[0] == b[0]);
        assert(kind_tag(g.kind) == kind_tag(h.kind));
        let (p, q) = (g.page_id, h.page_id);
        assert(a[4] == b[4] && a[5] == b[5] && a[6] == b[6] && a[7] == b[7]);
        assert(p == q) by (bit_vector)
            requires
                (p & 0xff) as u8 == (q & 0xff) as u8,
                ((p >> 8) & 0xff) as u8 == ((q >> 8) & 0xff) as u8,
                ((p >> 16) & 0xff) as u8 == ((q >> 16) & 0xff) as u8,
                ((p >> 24) & 0xff) as u8 == ((q >> 24) & 0xff) as u8,
        ;
        let (x, y) = (g.db_size, h.db_size);
        assert(a[8] == b[8] && a[9] == b[9] && a[10] == b[10] && a[11] == b[11]);
        assert(a[12] == b[12] && a[13] == b[13] && a[14] == b[14] && a[15] == b[15]);
        assert(x == y) by (bit_vector)
            requires
                ((x & 0xffff_ffff) as u32 & 0xff) as u8 == ((y & 0xffff_ffff) as u32 & 0xff) as u8,
                (((x & 0xffff_ffff) as u32 >> 8) & 0xff) as u8 == (((y & 0xffff_ffff) as u32 >> 8) & 0xff) as u8,
                (((x & 0xffff_ffff) as u32 >> 16) & 0xff) as u8 == (((y & 0xffff_ffff) as u32 >> 16) & 0xff) as u8,
                (((x & 0xffff_ffff) as u32 >> 24) & 0xff) as u8 == (((y & 0xffff_ffff) as u32 >> 24) & 0xff) as u8,
                ((x >> 32) as u32 & 0xff) as u8 == ((y >> 32) as u32 & 0xff) as u8,
                (((x >> 32) as u32 >> 8) & 0xff) as u8 == (((y >> 32) as u32 >> 8) & 0xff) as u8,
                (((x >> 32) as u32 >> 16) & 0xff) as u8 == (((y >> 32) as u32 >> 16) & 0xff) as u8,
                (((x >> 32) as u32 >> 24) & 0xff) as u8 == (((y >> 32) as u32 >> 24) & 0xff) as u8,
        ;
    }
}

/// The index that a sequence of records yields: committed and pending record
/// offsets by page id, the number of records up to the last commit marker,
/// and the database size the last marker recorded.
pub struct Replay {
    pub committed: Map<u32, u64>,
    pub pending: Map<u32, u64>,
    pub committed_records: nat,
    pub db_size: Option<u64>,
}

/// Reads the records in order, as recovery does.
pub open spec fn replay(records: Seq<RecordHeader>, page_size: u32) -> Replay
    decreases records.len(),
{
    if records.len() == 0 {
        Replay { committed: no_offsets(), pending: no_offsets(), committed_records: 0, db_size: None }
    } else {
        let prev = replay(records.drop_last(), page_size);
        let offset = ((records.len() - 1) * record_size(page_size)) as u64;
        let r = records.last();
        match r.kind {
            RecordKind::Page => Replay {
                pending: prev.pending.insert(r.page_id, offset),
                ..prev
            },
            RecordKind::Commit => Replay {
                committed: prev.committed.union_prefer_right(prev.pending),
                pending: no_offsets(),
                committed_records: records.len(),
                db_size: Some(r.db_size),
            },
        }
    }
}

/// The records after the last commit marker are page records, and recovery
/// yields the same committed index with or without them.
pub proof fn lemma_uncommitted_tail_ignored(records: Seq<RecordHeader>, page_size: u32)
    ensures
        replay(records, page_size).committed_records <= records.len(),
        forall|i: int|
            replay(records, page_size).committed_records <= i < records.len()
                ==> #[trigger] records[i].kind == RecordKind::Page,
        replay(records.subrange(0, replay(records, page_size).committed_records as int), page_size)
            == (Replay { pending: no_offsets(), ..replay(records, page_size) }),
    decreases records.len(),
{
    let r = replay(records, page_size);
    if records.len() == 0 {
        assert(records.subrange(0, 0) =~= records);
    } else {
        let prev = records.drop_last();
        lemma_uncommitted_tail_ignored(prev, page_size);
        match records.last().kind {
            RecordKind::Page => {
                assert forall|i: int| r.committed_records <= i < records.len() implies #[trigger] records[i].kind
                    == RecordKind::Page by {
                    if i < records.len() - 1 {
                        assert(records[i] == prev[i]);
                    }
                }
                assert(records.subrange(0, r.committed_records as int) =~= prev.subrange(
                    0,
                    r.committed_records as int,
                ));
            },
            RecordKind::Commit => {
                assert(records.subrange(0, r.committed_records as int) =~= records);
            },
        }
    }
}

/// What a session pins: the committed offsets and database size when it began.
pub struct JournalSnapshot {
    pub offsets: Map<u32, u64>,
    pub db_size: u64,
}

/// A session's frozen view of the journal.
pub struct TransactionState {
    pub offset_map: im::OrdMap<u32, u64>,
    pub db_size: u64,
}

impl TransactionState {
    pub open spec fn view(&self) -> JournalSnapshot {
        JournalSnapshot { offsets: offset_map_contents(self.offset_map), db_size: self.db_size }
    }
}

/// The observable state of a journal.
pub struct JournalView {
    pub page_size: u32,
    /// Every record written since the journal was last emptied.
    pub records: Seq<RecordHeader>,
    pub committed: Map<u32, u64>,
    pub pending: Map<u32, u64>,
    pub db_size: u64,
    pub tx_db_size: u64,
    pub ty: Option<TransactionType>,
    pub len: u64,
    pub committed_len: u64,
}

impl JournalView {
    /// The index matches what recovery would read from the records.
    pub open spec fn wf(self) -> bool {
        let r = replay(self.records, self.page_size);
        &&& self.len == self.records.len() * record_size(self.page_size)
        &&& self.committed_len == r.committed_records * record_size(self.page_size)
        &&& self.committed == r.committed
        &&& self.pending == r.pending
        &&& (self.ty != Some(TransactionType::Write) ==> self.pending == no_offsets())
        &&& (self.ty != Some(TransactionType::Write) ==> self.tx_db_size == self.db_size)
        &&& (r.db_size.is_some() ==> self.db_size == r.db_size.unwrap())
    }

    pub open spec fn in_write(self) -> bool {
        self.ty == Some(TransactionType::Write)
    }

    /// The record offsets reads outside sessions use.
    pub open spec fn main_offsets(self) -> Map<u32, u64> {
        self.committed.union_prefer_right(self.pending)
    }

    /// The database size reads outside sessions use.
    pub open spec fn main_db_size(self) -> u64 {
        if self.ty.is_some() {
            self.tx_db_size
        } else {
            self.db_size
        }
    }

    /// Whether one more record still has an offset a `u64` can address.
    pub open spec fn has_room(self) -> bool {
        self.len + record_size(self.page_size) <= u64::MAX
    }

    /// The state after a page record for `page_id` is appended.
    pub open spec fn append(self, page_id: u32) -> JournalView {
        JournalView {
            records: self.records.push(RecordHeader { kind: RecordKind::Page, page_id, db_size: 0 }),
            pending: self.pending.insert(page_id, self.len),
            len: (self.len + record_size(self.page_size)) as u64,
            tx_db_size: {
                let end = ((page_id as int) + 1) * (self.page_size as int);
                if end > self.tx_db_size {
                    end as u64
                } else {
                    self.tx_db_size
                }
            },
            ..self
        }
    }

    /// The state after a write transaction commits behind a marker.
    pub open spec fn commit_write(self) -> JournalView {
        JournalView {
            records: self.records.push(
                RecordHeader { kind: RecordKind::Commit, page_id: 0, db_size: self.tx_db_size },
            ),
            committed: self.main_offsets(),
            pending: no_offsets(),
            db_size: self.tx_db_size,
            ty: None,
            len: (self.len + record_size(self.page_size)) as u64,
            committed_len: (self.len + record_size(self.page_size)) as u64,
            ..self
        }
    }

    /// The state after the active transaction is dropped.
    pub open spec fn rolled_back(self) -> JournalView {
        JournalView {
            records: self.records.subrange(
                0,
                replay(self.records, self.page_size).committed_records as int,
            ),
            pending: no_offsets(),
            ty: None,
            len: self.committed_len,
            tx_db_size: self.db_size,
            ..self
        }
    }

    pub open spec fn snapshot(self) -> JournalSnapshot {
        JournalSnapshot { offsets: self.committed, db_size: self.db_size }
    }
}

/// What a reader observes of page `id`: the image of its record where the
/// offsets name one, else the page of the main file.
pub open spec fn observe(
    offsets: Map<u32, u64>,
    record_images: Map<u64, Seq<u8>>,
    main: Map<u32, Seq<u8>>,
    id: u32,
) -> Option<Seq<u8>> {
    if offsets.contains_key(id) {
        if record_images.contains_key(offsets[id]) {
            Some(record_images[offsets[id]])
        } else {
            None
        }
    } else if main.contains_key(id) {
        Some(main[id])
    } else {
        None
    }
}

/// The main file after a checkpoint copies each indexed record's image to its page.
pub open spec fn checkpointed(
    offsets: Map<u32, u64>,
    record_images: Map<u64, Seq<u8>>,
    main: Map<u32, Seq<u8>>,
) -> Map<u32, Seq<u8>> {
    Map::new(
        |id: u32|
            (offsets.contains_key(id) && record_images.contains_key(offsets[id])) || (
            !offsets.contains_key(id) && main.contains_key(id)),
        |id: u32|
            if offsets.contains_key(id) {
                record_images[offsets[id]]
            } else {
                main[id]
            },
    )
}

/// A checkpoint changes no page that a reader observes: afterwards the index
/// is empty and the main file alone gives the same images.
pub proof fn lemma_checkpoint_equivalence(
    offsets: Map<u32, u64>,
    record_images: Map<u64, Seq<u8>>,
    main: Map<u32, Seq<u8>>,
    id: u32,
)
    ensures
        observe(no_offsets(), record_images, checkpointed(offsets, record_images, main), id)
            == observe(offsets, record_images, main, id),
{
}

/// The index over the journal's records, with the transaction state machine.
pub struct JournalManager {
    page_size: u32,
    offset_map: im::OrdMap<u32, u64>,
    pending_map: im::OrdMap<u32, u64>,
    db_size: u64,
    tx_db_size: u64,
    ty: Option<TransactionType>,
    len: u64,
    committed_len: u64,
    records: Ghost<Seq<RecordHeader>>,
}

impl View for JournalManager {
    type V = JournalView;

    closed spec fn view(&self) -> JournalView {
        JournalView {
            page_size: self.page_size,
            records: self.records@,
            committed: offset_map_contents(self.offset_map),
            pending: offset_map_contents(self.pending_map),
            db_size: self.db_size,
            tx_db_size: self.tx_db_size,
            ty: self.ty,
            len: self.len,
            committed_len: self.committed_len,
        }
    }
}

impl JournalManager {
    /// An index over an empty journal, for a main file of `db_size` bytes.
    pub fn new(page_size: u32, db_size: u64) -> (r: JournalManager)
        ensures
            r@.wf(),
            r@.page_size == page_size,
            r@.records == Seq::<RecordHeader>::empty(),
            r@.db_size == db_size,
            r@.ty.is_none(),
    {
        let r = JournalManager {
            page_size,
            offset_map: offset_map_new(),
            pending_map: offset_map_new(),
            db_size,
            tx_db_size: db_size,
            ty: None,
            len: 0,
            committed_len: 0,
            records: Ghost(Seq::empty()),
        };
        assert(r@.committed == replay(r@.records, page_size).committed);
        r
    }

    /// Rebuilds the index from the headers of the records found in the
    /// journal, in order; page records after the last commit marker are
    /// dropped. Without a marker the database size is `main_db_size`.
    pub fn recover(page_size: u32, main_db_size: u64, headers: &Vec<RecordHeader>) -> (r: JournalManager)
        requires
            headers@.len() * record_size(page_size) <= u64::MAX,
        ensures
            r@.wf(),
            r@.page_size == page_size,
            r@.records == headers@.subrange(0, replay(headers@, page_size).committed_records as int),
            r@.committed == replay(headers@, page_size).committed,
            r@.db_size == (match replay(headers@, page_size).db_size {
                Some(s) => s,
                None => main_db_size,
            }),
            r@.ty.is_none(),
    {
        let ghost rs = record_size(page_size);
        let mut committed = offset_map_new();
        let mut pending = offset_map_new();
        let mut committed_count: usize = 0;
        let mut db_size = main_db_size;
        let mut i: usize = 0;
        while i < headers.len()
            invariant
                i <= headers@.len(),
                rs == record_size(page_size),
                headers@.len() * rs <= u64::MAX,
                offset_map_contents(committed) == replay(headers@.subrange(0, i as int), page_size).committed,
                offset_map_contents(pending) == replay(headers@.subrange(0, i as int), page_size).pending,
                committed_count == replay(headers@.subrange(0, i as int), page_size).committed_records,
                db_size == (match replay(headers@.subrange(0, i as int), page_size).db_size {
                    Some(s) => s,
                    None => main_db_size,
                }),
            decreases headers@.len() - i,
        {
            let ghost before = headers@.subrange(0, i as int);
            assert(headers@.subrange(0, i + 1).drop_last() =~= before);
            proof {
                assert(i * rs <= headers@.len() * rs) by (nonlinear_arith)
                    requires
                        i <= headers@.len(),
                        rs >= 0,
                ;
            }
            let offset = (i as u64) * (RECORD_HEADER_SIZE + page_size as u64);
            let h = headers[i];
            match h.kind {
                RecordKind::Page => {
                    offset_map_insert(&mut pending, h.page_id, offset);
                },
                RecordKind::Commit => {
                    committed = offset_map_merge(&committed, &pending);
                    pending = offset_map_new();
                    committed_count = i + 1;
                    db_size = h.db_size;
                },
            }
            i = i + 1;
        }
        assert(headers@.subrange(0, i as int) =~= headers@);
        proof {
            lemma_uncommitted_tail_ignored(headers@, page_size);
            assert(committed_count * rs <= headers@.len() * rs) by (nonlinear_arith)
                requires
                    committed_count <= headers@.len(),
                    rs >= 0,
            ;
        }
        let len = (committed_count as u64) * (RECORD_HEADER_SIZE + page_size as u64);
        JournalManager {
            page_size,
            offset_map: committed,
            pending_map: offset_map_new(),
            db_size,
            tx_db_size: db_size,
            ty: None,
            len,
            committed_len: len,
            records: Ghost(headers@.subrange(0, committed_count as int)),
        }
    }

    /// Bytes written to the journal.
    pub fn len(&self) -> (r: u64)
        ensures
            r == self@.len,
    {
        self.len
    }

    pub fn page_size(&self) -> (r: u32)
        ensures
            r == self@.page_size,
    {
        self.page_size
    }

    pub fn transaction_type(&self) -> (r: Option<TransactionType>)
        ensures
            r == self@.ty,
    {
        self.ty
    }

    /// The database size as reads outside sessions see it.
    pub fn record_db_size(&self) -> (r: u64)
        ensures
            r == self@.main_db_size(),
    {
        if self.ty.is_some() {
            self.tx_db_size
        } else {
            self.db_size
        }
    }

    pub fn start_transaction(&mut self, ty: TransactionType) -> (r: Result<(), DbErr>)
        requires
            old(self)@.wf(),
        ensures
            final(self)@.wf(),
            old(self)@.ty.is_some() ==> r == Err::<(), DbErr>(DbErr::Busy) && final(self)@ == old(self)@,
            old(self)@.ty.is_none() ==> r.is_ok() && final(self)@ == (JournalView {
                ty: Some(ty),
                tx_db_size: old(self)@.db_size,
                ..old(self)@
            }),
    {
        if self.ty.is_some() {
            return Err(DbErr::Busy);
        }
        self.ty = Some(ty);
        self.tx_db_size = self.db_size;
        Ok(())
    }

    /// Makes the active transaction a write transaction, or starts one.
    pub fn upgrade_read_transaction_to_write(&mut self) -> (r: Result<(), DbErr>)
        requires
            old(self)@.wf(),
        ensures
            final(self)@.wf(),
            r.is_ok(),
            final(self)@ == (JournalView {
                ty: Some(TransactionType::Write),
                tx_db_size: if old(self)@.ty.is_some() {
                    old(self)@.tx_db_size
                } else {
                    old(self)@.db_size
                },
                ..old(self)@
            }),
    {
        if self.ty.is_none() {
            self.tx_db_size = self.db_size;
        }
        self.ty = Some(TransactionType::Write);
        Ok(())
    }

    /// Reserves the next record for an image of page `page_id` and returns
    /// its offset; the caller writes the record there.
    pub fn append_raw_page(&mut self, page_id: u32) -> (r: Result<u64, DbErr>)
        requires
            old(self)@.wf(),
        ensures
            final(self)@.wf(),
            !old(self)@.in_write() ==> r == Err::<u64, DbErr>(DbErr::CannotWriteDbWithoutTransaction)
                && final(self)@ == old(self)@,
            old(self)@.in_write() && old(self)@.len + record_size(old(self)@.page_size) > u64::MAX
                ==> r == Err::<u64, DbErr>(DbErr::JournalOverflow) && final(self)@ == old(self)@,
            old(self)@.in_write() && old(self)@.has_room() ==> r == Ok::<u64, DbErr>(old(self)@.len)
                && final(self)@ == old(self)@.append(page_id),
    {
        if self.ty != Some(TransactionType::Write) {
            return Err(DbErr::CannotWriteDbWithoutTransaction);
        }
        let size = RECORD_HEADER_SIZE + self.page_size as u64;
        if self.len > u64::MAX - size {
            return Err(DbErr::JournalOverflow);
        }
        let offset = self.len;
        offset_map_insert(&mut self.pending_map, page_id, offset);
        self.len = self.len + size;
        proof {
            crate::page::lemma_page_end_fits(page_id, self.page_size);
        }
        let end = (page_id as u64 + 1) * (self.page_size as u64);
        if end > self.tx_db_size {
            self.tx_db_size = end;
        }
        let ghost h = RecordHeader { kind: RecordKind::Page, page_id, db_size: 0 };
        proof {
            let recs = self.records@.push(h);
            assert(recs.drop_last() =~= self.records@);
            self.records = Ghost(recs);
            assert(self@.len == recs.len() * record_size(self.page_size)) by (nonlinear_arith)
                requires
                    self@.len == (recs.len() - 1) * record_size(self.page_size) + record_size(
                        self.page_size,
                    ),
            ;
        }
        Ok(offset)
    }

    /// Sets the database size of the active write transaction; outside one
    /// nothing changes.
    pub fn expand_db_size(&mut self, size: u64) -> (r: Result<(), DbErr>)
        requires
            old(self)@.wf(),
        ensures
            final(self)@.wf(),
            r.is_ok(),
            old(self)@.in_write() ==> final(self)@ == (JournalView { tx_db_size: size, ..old(self)@ }),
            !old(self)@.in_write() ==> final(self)@ == old(self)@,
    {
        if self.ty == Some(TransactionType::Write) {
            self.tx_db_size = size;
        }
        Ok(())
    }

    /// Ends the active transaction. A write transaction's pages become
    /// committed behind a commit marker, whose offset is returned so that the
    /// caller writes it there; a read transaction just ends.
    pub fn commit(&mut self) -> (r: Result<Option<u64>, DbErr>)
        requires
            old(self)@.wf(),
        ensures
            final(self)@.wf(),
            old(self)@.ty.is_none() ==> r == Err::<Option<u64>, DbErr>(
                DbErr::CannotWriteDbWithoutTransaction,
            ) && final(self)@ == old(self)@,
            old(self)@.ty == Some(TransactionType::Read) ==> r == Ok::<Option<u64>, DbErr>(None)
                && final(self)@ == (JournalView { ty: None, ..old(self)@ }),
            old(self)@.in_write() && old(self)@.len + record_size(old(self)@.page_size) > u64::MAX
                ==> r == Err::<Option<u64>, DbErr>(DbErr::JournalOverflow) && final(self)@ == old(self)@,
            old(self)@.in_write() && old(self)@.has_room() ==> r == Ok::<Option<u64>, DbErr>(
                Some(old(self)@.len),
            ) && final(self)@ == old(self)@.commit_write(),
    {
        match self.ty {
            None => Err(DbErr::CannotWriteDbWithoutTransaction),
            Some(TransactionType::Read) => {
                self.ty = None;
                Ok(None)
            },
            Some(TransactionType::Write) => {
                let size = RECORD_HEADER_SIZE + self.page_size as u64;
                if self.len > u64::MAX - size {
                    return Err(DbErr::JournalOverflow);
                }
                let offset = self.len;
                self.offset_map = offset_map_merge(&self.offset_map, &self.pending_map);
                self.pending_map = offset_map_new();
                self.db_size = self.tx_db_size;
                self.ty = None;
                self.len = self.len + size;
                self.committed_len = self.len;
                let ghost h = RecordHeader {
                    kind: RecordKind::Commit,
                    page_id: 0,
                    db_size: self.tx_db_size,
                };
                proof {
                    let recs = self.records@.push(h);
                    assert(recs.drop_last() =~= self.records@);
                    self.records = Ghost(recs);
                    assert(self@.len == recs.len() * record_size(self.page_size)) by (nonlinear_arith)
                        requires
                            self@.len == (recs.len() - 1) * record_size(self.page_size)
                                + record_size(self.page_size),
                    ;
                }
                Ok(Some(offset))
            },
        }
    }

    /// What `commit` would return now, without changing anything: where the
    /// commit marker goes, so that the caller can write it first.
    pub fn commit_marker(&self) -> (r: Result<Option<u64>, DbErr>)
        ensures
            self@.ty.is_none() ==> r == Err::<Option<u64>, DbErr>(DbErr::CannotWriteDbWithoutTransaction),
            self@.ty == Some(TransactionType::Read) ==> r == Ok::<Option<u64>, DbErr>(None),
            self@.in_write() && !self@.has_room() ==> r == Err::<Option<u64>, DbErr>(
                DbErr::JournalOverflow,
            ),
            self@.in_write() && self@.has_room() ==> r == Ok::<Option<u64>, DbErr>(Some(self@.len)),
    {
        match self.ty {
            None => Err(DbErr::CannotWriteDbWithoutTransaction),
            Some(TransactionType::Read) => Ok(None),
            Some(TransactionType::Write) => {
                if self.len > u64::MAX - (RECORD_HEADER_SIZE + self.page_size as u64) {
                    Err(DbErr::JournalOverflow)
                } else {
                    Ok(Some(self.len))
                }
            },
        }
    }

    /// Drops the active transaction and the records it wrote; the caller
    /// truncates the journal to the returned length.
    pub fn rollback(&mut self) -> (r: Result<u64, DbErr>)
        requires
            old(self)@.wf(),
        ensures
            final(self)@.wf(),
            old(self)@.ty.is_none() ==> r == Err::<u64, DbErr>(DbErr::RollbackNotInTransaction)
                && final(self)@ == old(self)@,
            old(self)@.ty.is_some() ==> r == Ok::<u64, DbErr>(old(self)@.committed_len)
                && final(self)@ == old(self)@.rolled_back(),
    {
        if self.ty.is_none() {
            return Err(DbErr::RollbackNotInTransaction);
        }
        proof {
            lemma_uncommitted_tail_ignored(self.records@, self.page_size);
            let n = replay(self.records@, self.page_size).committed_records;
            self.records = Ghost(self.records@.subrange(0, n as int));
        }
        self.pending_map = offset_map_new();
        self.ty = None;
        self.len = self.committed_len;
        self.tx_db_size = self.db_size;
        Ok(self.committed_len)
    }

    /// The offset of the record that holds page `page_id` for reads outside
    /// sessions, if the journal has one.
    pub fn read_page_main(&self, page_id: u32) -> (r: Option<u64>)
        ensures
            r.is_some() == self@.main_offsets().contains_key(page_id),
            r.is_some() ==> r.unwrap() == self@.main_offsets()[page_id],
    {
        match offset_map_get(&self.pending_map, page_id) {
            Some(offset) => Some(offset),
            None => offset_map_get(&self.offset_map, page_id),
        }
    }

    /// The offset of the record that holds page `page_id` in a session's view,
    /// if the journal had one when the session began.
    pub fn read_page(&self, page_id: u32, state: &TransactionState) -> (r: Option<u64>)
        ensures
            r.is_some() == state.view().offsets.contains_key(page_id),
            r.is_some() ==> r.unwrap() == state.view().offsets[page_id],
    {
        offset_map_get(&state.offset_map, page_id)
    }

    /// Pins the committed state for a new session.
    pub fn new_state(&self) -> (r: TransactionState)
        ensures
            r.view() == self@.snapshot(),
    {
        TransactionState { offset_map: offset_map_clone(&self.offset_map), db_size: self.db_size }
    }

    /// The committed records to copy into the main file, as (page id, record
    /// offset), each page once, ids ascending.
    pub fn checkpoint_plan(&self) -> (r: Vec<(u32, u64)>)
        ensures
            forall|i: int, j: int| 0 <= i < j < r@.len() ==> r@[i].0 < r@[j].0,
            forall|i: int|
                0 <= i < r@.len() ==> self@.committed.contains_key(#[trigger] r@[i].0)
                    && self@.committed[r@[i].0] == r@[i].1,
            forall|k: u32|
                self@.committed.contains_key(k) ==> exists|i: int|
                    0 <= i < r@.len() && #[trigger] r@[i].0 == k,
    {
        offset_map_entries(&self.offset_map)
    }

    /// Empties the journal once its committed records are in the main file.
    /// Refused while a transaction is active, whose records would be lost.
    pub fn finish_checkpoint(&mut self) -> (r: Result<(), DbErr>)
        requires
            old(self)@.wf(),
        ensures
            final(self)@.wf(),
            old(self)@.ty.is_some() ==> r == Err::<(), DbErr>(DbErr::Busy) && final(self)@ == old(self)@,
            old(self)@.ty.is_none() ==> r.is_ok() && final(self)@ == (JournalView {
                records: Seq::<RecordHeader>::empty(),
                committed: no_offsets(),
                len: 0,
                committed_len: 0,
                ..old(self)@
            }),
    {
        if self.ty.is_some() {
            return Err(DbErr::Busy);
        }
        self.offset_map = offset_map_new();
        self.len = 0;
        self.committed_len = 0;
        self.records = Ghost(Seq::empty());
        Ok(())
    }
}

/// After a commit, recovery from the journal's records yields exactly the
/// committed index and database size, with nothing pending.
pub proof fn lemma_commit_durable(j: JournalView)
    requires
        j.wf(),
        j.ty.is_none(),
    ensures
        replay(j.records, j.page_size).committed == j.committed,
        replay(j.records, j.page_size).pending == no_offsets(),
{
}

/// Recovery after a crash in the middle of a batch, before its commit marker,
/// yields the state of the last commit.
pub proof fn lemma_crash_recovery(records: Seq<RecordHeader>, batch: Seq<RecordHeader>, page_size: u32)
    requires
        replay(records, page_size).pending == no_offsets(),
        forall|i: int| 0 <= i < batch.len() ==> #[trigger] batch[i].kind == RecordKind::Page,
    ensures
        replay(records + batch, page_size).committed == replay(records, page_size).committed,
        replay(records + batch, page_size).db_size == replay(records, page_size).db_size,
    decreases batch.len(),
{
    if batch.len() > 0 {
        let shorter = batch.drop_last();
        assert((records + batch).drop_last() =~= records + shorter);
        lemma_crash_recovery(records, shorter, page_size);
    } else {
        assert(records + batch =~= records);
    }
}

/// Appends a page record for each id in order.
pub open spec fn append_all(j: JournalView, ids: Seq<u32>) -> JournalView
    decreases ids.len(),
{
    if ids.len() == 0 {
        j
    } else {
        append_all(j, ids.drop_last()).append(ids.last())
    }
}

/// A page written in a write transaction and committed is read, outside any
/// session, from the record that the write reserved.
pub proof fn lemma_file_write_commit_read(j: JournalView, page_id: u32)
    requires
        j.in_write(),
    ensures
        j.append(page_id).commit_write().main_offsets().contains_key(page_id),
        j.append(page_id).commit_write().main_offsets()[page_id] == j.len,
        j.append(page_id).commit_write().ty.is_none(),
{
}

/// Rolling back a write transaction, whatever it wrote, restores the journal
/// exactly as it was before the transaction started: `j` is the state that
/// starting it from `before` gives.
pub proof fn lemma_file_rollback_restores(j: JournalView, before: JournalView, ids: Seq<u32>)
    requires
        before.wf(),
        before.ty.is_none(),
        j == (JournalView { ty: Some(TransactionType::Write), tx_db_size: before.db_size, ..before }),
    ensures
        append_all(j, ids).rolled_back() == before,
    decreases ids.len(),
{
    let recs = before.records;
    let r = replay(recs, before.page_size);
    lemma_uncommitted_tail_ignored(recs, before.page_size);
    if r.committed_records < recs.len() {
        assert(recs[recs.len() - 1].kind == RecordKind::Page);
        assert(r.pending.contains_key(recs.last().page_id));
        assert(no_offsets().contains_key(recs.last().page_id));
    }
    assert(recs.subrange(0, r.committed_records as int) =~= recs);
    lemma_append_all_keeps_commits(j, ids);
    let k = append_all(j, ids);
    assert(k.records.subrange(0, recs.len() as int) == recs);
    assert(before.committed_len == before.len);
    assert(k.rolled_back() =~= before);
}

/// Page records leave what recovery counts as committed alone.
proof fn lemma_append_all_keeps_commits(j: JournalView, ids: Seq<u32>)
    requires
        j.wf(),
        j.ty.is_some(),
        replay(j.records, j.page_size).committed_records == j.records.len(),
    ensures
        append_all(j, ids).records.len() == j.records.len() + ids.len(),
        append_all(j, ids).records.subrange(0, j.records.len() as int) == j.records,
        replay(append_all(j, ids).records, j.page_size).committed_records == j.records.len(),
        append_all(j, ids) == (JournalView {
            records: append_all(j, ids).records,
            pending: append_all(j, ids).pending,
            len: append_all(j, ids).len,
            tx_db_size: append_all(j, ids).tx_db_size,
            ..j
        }),
    decreases ids.len(),
{
    if ids.len() > 0 {
        lemma_append_all_keeps_commits(j, ids.drop_last());
        let prev = append_all(j, ids.drop_last());
        let recs = prev.records.push(RecordHeader { kind: RecordKind::Page, page_id: ids.last(), db_size: 0 });
        assert(recs.drop_last() =~= prev.records);
        assert(recs.subrange(0, j.records.len() as int) =~= prev.records.subrange(0, j.records.len() as int));
    } else {
        assert(j.records.subrange(0, j.records.len() as int) =~= j.records);
    }
}

} // verus!
