use vstd::prelude::*;

verus! {

/// Settings of a backend.
pub struct Config {
    /// Initial size of a fresh store, in pages; at least one.
    pub init_block_count: u64,
    /// Journal length at which a commit checkpoints.
    pub journal_full_size: u64,
    /// Whether opening a non-empty store checks its version bytes.
    pub check_db_version: bool,
}

impl Default for Config {
    fn default() -> (r: Config)
        ensures
            r.init_block_count == 16,
            r.journal_full_size == 1000,
            r.check_db_version,
    {
        Config { init_block_count: 16, journal_full_size: 1000, check_db_version: true }
    }
}

} // verus!
