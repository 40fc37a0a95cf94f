use vstd::prelude::*;

verus! {

/// Errors that backend operations report.
#[derive(Debug, PartialEq, Eq)]
pub enum DbErr {
    /// Another opener holds the store.
    DatabaseOccupied,
    /// The store's length is not a whole number of pages.
    NotAValidDatabase,
    /// The store's version bytes differ from the ones this library expects.
    VersionMismatch { expected: [u8; 4], actual: [u8; 4] },
    /// A read named a session that does not exist.
    InvalidSession(u128),
    /// A write or commit came with no write transaction active.
    CannotWriteDbWithoutTransaction,
    /// A rollback came with no transaction active.
    RollbackNotInTransaction,
    /// A transaction is already active.
    Busy,
    /// A read named a page beyond the database size.
    PageNotExist(u32),
    /// The journal would outgrow the offsets a `u64` can address.
    JournalOverflow,
    /// A stored page failed to decode.
    Compression,
    /// The underlying storage failed.
    Io(String),
}

} // verus!
