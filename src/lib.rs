//! Storage backend layer of an embedded document database: fixed-size pages
//! under transactions, with snapshot isolation for read sessions, over an
//! in-memory store, a journaled file, or a browser key-value store.
pub mod config;
pub mod error;
pub mod file_backend;
pub mod file_sessions;
pub mod indexeddb_backend;
pub mod journal;
pub mod memory_backend;
pub mod offset_map;
pub mod page;
pub mod page_cache;
pub mod page_map;
pub mod session_id;
pub mod session_table;
pub mod snapshot;
pub mod store_data;
pub mod transaction;
