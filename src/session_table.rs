//! Read sessions of the memory backend, by 96-bit session id.
use vstd::prelude::*;
use crate::snapshot::PageImage;
use crate::snapshot::Snapshot;

verus! {

/// The snapshots pinned by live sessions, kept in a hash map.
#[verifier::external_body]
pub struct SessionTable {
    table: hashbrown::HashMap<u128, Snapshot>,
}

/// The table that holds no session.
pub open spec fn no_sessions() -> Map<u128, PageImage> {
    Map::empty()
}

/// The image that each live session reads.
pub uninterp spec fn session_images(t: SessionTable) -> Map<u128, PageImage>;

impl SessionTable {
    /// Relies on hashbrown::HashMap::new: the table it makes is empty.
    #[verifier::external_body]
    pub fn new() -> (r: SessionTable)
        ensures
            session_images(r) == no_sessions(),
    {
        SessionTable { table: hashbrown::HashMap::new() }
    }

    /// Relies on hashbrown::HashMap::get: the snapshot stored under the id, if any.
    #[verifier::external_body]
    pub fn get(&self, id: u128) -> (r: Option<&Snapshot>)
        ensures
            r.is_some() == session_images(*self).contains_key(id),
            r.is_some() ==> r.unwrap().image() == session_images(*self)[id],
    {
        self.table.get(&id)
    }

    /// Relies on hashbrown::HashMap::insert: the id maps to the snapshot
    /// afterwards, the other sessions stay.
    #[verifier::external_body]
    pub fn insert(&mut self, id: u128, snapshot: Snapshot)
        ensures
            session_images(*final(self)) == session_images(*old(self)).insert(id, snapshot.image()),
    {
        self.table.insert(id, snapshot);
    }

    /// Relies on hashbrown::HashMap::remove: the id has no entry afterwards, the
    /// other sessions stay.
    #[verifier::external_body]
    pub fn remove(&mut self, id: u128)
        ensures
            session_images(*final(self)) == session_images(*old(self)).remove(id),
    {
        self.table.remove(&id);
    }
}

} // verus!
