//! Read sessions of the file backend, by 96-bit session id.
use vstd::prelude::*;
use crate::journal::JournalSnapshot;
use crate::journal::TransactionState;

verus! {

/// The journal views pinned by live sessions, kept in a hash map.
#[verifier::external_body]
pub struct FileSessionTable {
    table: hashbrown::HashMap<u128, TransactionState>,
}

/// The table that holds no session.
pub open spec fn no_file_sessions() -> Map<u128, JournalSnapshot> {
    Map::empty()
}

/// The journal view that each live session reads.
pub uninterp spec fn file_session_views(t: FileSessionTable) -> Map<u128, JournalSnapshot>;

impl FileSessionTable {
    /// Relies on hashbrown::HashMap::new: the table it makes is empty.
    #[verifier::external_body]
    pub fn new() -> (r: FileSessionTable)
        ensures
            file_session_views(r) == no_file_sessions(),
    {
        FileSessionTable { table: hashbrown::HashMap::new() }
    }

    /// Relies on hashbrown::HashMap::get: the view stored under the id, if any.
    #[verifier::external_body]
    pub fn get(&self, id: u128) -> (r: Option<&TransactionState>)
        ensures
            r.is_some() == file_session_views(*self).contains_key(id),
            r.is_some() ==> r.unwrap().view() == file_session_views(*self)[id],
    {
        self.table.get(&id)
    }

    /// Relies on hashbrown::HashMap::insert: the id maps to the view
    /// afterwards, the other sessions stay.
    #[verifier::external_body]
    pub fn insert(&mut self, id: u128, state: TransactionState)
        ensures
            file_session_views(*final(self)) == file_session_views(*old(self)).insert(id, state.view()),
    {
        self.table.insert(id, state);
    }

    /// Relies on hashbrown::HashMap::remove: the id has no entry afterwards,
    /// the other sessions stay.
    #[verifier::external_body]
    pub fn remove(&mut self, id: u128)
        ensures
            file_session_views(*final(self)) == file_session_views(*old(self)).remove(id),
    {
        self.table.remove(&id);
    }

    /// Relies on hashbrown::HashMap::is_empty: whether no session is live.
    #[verifier::external_body]
    pub fn is_empty(&self) -> (r: bool)
        ensures
            r == (file_session_views(*self) == no_file_sessions()),
    {
        self.table.is_empty()
    }

    /// Relies on hashbrown::HashMap::clear: no session is left.
    #[verifier::external_body]
    pub fn clear(&mut self)
        ensures
            file_session_views(*final(self)) == no_file_sessions(),
    {
        self.table.clear();
    }
}

} // verus!
