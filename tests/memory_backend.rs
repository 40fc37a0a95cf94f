use polodb_core::config::Config;
use polodb_core::error::DbErr;
use polodb_core::memory_backend::MemoryBackendInner;
use polodb_core::page::RawPage;
use polodb_core::page_cache::PageCache;
use polodb_core::transaction::TransactionType;

const TEST_PAGE_LEN: u32 = 100;

fn pseudo_random_page(page_id: u32, seed: &mut u64) -> RawPage {
    let mut page = RawPage::new(page_id, 4096);
    for i in 0..4096 {
        *seed = seed.wrapping_mul(6364136223846793005).wrapping_add(1442695040888963407);
        page.data[i] = (*seed >> 33) as u8;
    }
    page
}

fn filled(page_id: u32, byte: u8) -> RawPage {
    RawPage { page_id, data: vec![byte; 4096] }
}

#[test]
fn test_commit() {
    let config = Config::default();
    let mut backend = MemoryBackendInner::new(4096, config.init_block_count);

    let mut seed: u64 = 7;
    let mut ten_pages = Vec::with_capacity(TEST_PAGE_LEN as usize);
    for i in 0..TEST_PAGE_LEN {
        ten_pages.push(pseudo_random_page(i, &mut seed));
    }

    backend.start_transaction(TransactionType::Write).unwrap();
    for item in &ten_pages {
        backend.write_page(item, None).unwrap();
    }
    backend.commit().unwrap();

    for i in 0..TEST_PAGE_LEN {
        let page = backend.read_page_main(i).unwrap();
        for (index, ch) in page.data.iter().enumerate() {
            assert_eq!(*ch, ten_pages[i as usize].data[index])
        }
    }
}

#[test]
fn fresh_store_holds_header_and_initial_size() {
    let backend = MemoryBackendInner::new(4096, 16);
    assert_eq!(backend.db_size(), 16 * 4096);
    let header = backend.read_page(0, None).unwrap();
    assert_eq!(header.page_id, 0);
    assert_eq!(&header.data[32..36], &[0, 0, 0, 2]);
    assert_eq!(header.data.len(), 4096);
    assert_eq!(backend.transaction_type(), None);
}

#[test]
fn read_your_writes_inside_transaction() {
    let mut backend = MemoryBackendInner::new(4096, 16);
    backend.start_transaction(TransactionType::Write).unwrap();
    backend.write_page(&filled(5, 0x33), None).unwrap();
    assert_eq!(backend.read_page(5, None).unwrap().data, vec![0x33; 4096]);
}

#[test]
fn session_isolation_across_commits() {
    let mut backend = MemoryBackendInner::new(4096, 16);
    backend.start_transaction(TransactionType::Write).unwrap();
    backend.write_page(&filled(3, 0x01), None).unwrap();
    backend.commit().unwrap();

    let session: u128 = 0x0102_0304_0506_0708_090a_0b0c;
    backend.new_session(session).unwrap();

    backend.start_transaction(TransactionType::Write).unwrap();
    backend.write_page(&filled(3, 0x02), None).unwrap();
    backend.commit().unwrap();

    assert_eq!(backend.read_page(3, Some(session)).unwrap().data, vec![0x01; 4096]);
    assert_eq!(backend.read_page(3, None).unwrap().data, vec![0x02; 4096]);

    backend.remove_session(session).unwrap();
    assert_eq!(backend.read_page(3, Some(session)), Err(DbErr::InvalidSession(session)));
}

#[test]
fn zero_fill_growth() {
    let mut backend = MemoryBackendInner::new(4096, 16);
    backend.start_transaction(TransactionType::Write).unwrap();
    backend.set_db_size(100 * 4096).unwrap();
    backend.commit().unwrap();
    assert_eq!(backend.db_size(), 100 * 4096);
    let page = backend.read_page(50, None).unwrap();
    assert_eq!(page.page_id, 50);
    assert_eq!(page.data, vec![0u8; 4096]);
}

#[test]
fn read_beyond_size_fails() {
    let backend = MemoryBackendInner::new(4096, 16);
    assert_eq!(backend.read_page(16, None), Err(DbErr::PageNotExist(16)));
    assert_eq!(backend.read_page(15, None).unwrap().data, vec![0u8; 4096]);
}

#[test]
fn write_grows_size() {
    let mut backend = MemoryBackendInner::new(4096, 16);
    backend.start_transaction(TransactionType::Write).unwrap();
    backend.write_page(&filled(20, 9), None).unwrap();
    assert_eq!(backend.db_size(), 21 * 4096);
    let tx = backend.commit().unwrap();
    assert_eq!(tx.ty, TransactionType::Write);
    assert_eq!(tx.dirty_pages.len(), 1);
    assert_eq!(backend.db_size(), 21 * 4096);
}

#[test]
fn rollback_restores_committed_state() {
    let mut backend = MemoryBackendInner::new(4096, 16);
    backend.start_transaction(TransactionType::Write).unwrap();
    backend.write_page(&filled(2, 0x11), None).unwrap();
    backend.commit().unwrap();

    backend.start_transaction(TransactionType::Write).unwrap();
    backend.write_page(&filled(2, 0x22), None).unwrap();
    backend.write_page(&filled(40, 0x22), None).unwrap();
    backend.rollback().unwrap();

    assert_eq!(backend.transaction_type(), None);
    assert_eq!(backend.db_size(), 16 * 4096);
    assert_eq!(backend.read_page(2, None).unwrap().data, vec![0x11; 4096]);
    assert_eq!(backend.read_page(40, None), Err(DbErr::PageNotExist(40)));
}

#[test]
fn transaction_discipline_errors() {
    let mut backend = MemoryBackendInner::new(4096, 16);
    assert_eq!(backend.write_page(&filled(1, 1), None), Err(DbErr::CannotWriteDbWithoutTransaction));
    assert_eq!(backend.rollback(), Err(DbErr::RollbackNotInTransaction));
    assert!(matches!(backend.commit(), Err(DbErr::CannotWriteDbWithoutTransaction)));

    backend.start_transaction(TransactionType::Read).unwrap();
    assert_eq!(backend.start_transaction(TransactionType::Write), Err(DbErr::Busy));
    assert_eq!(backend.write_page(&filled(1, 1), None), Err(DbErr::CannotWriteDbWithoutTransaction));

    backend.upgrade_read_transaction_to_write().unwrap();
    assert_eq!(backend.transaction_type(), Some(TransactionType::Write));
    backend.write_page(&filled(1, 1), None).unwrap();
    backend.commit().unwrap();
    assert_eq!(backend.read_page(1, None).unwrap().data, vec![1u8; 4096]);
}

#[test]
fn session_round_trip_leaves_state() {
    let mut backend = MemoryBackendInner::new(4096, 16);
    backend.new_session(9).unwrap();
    for id in 0..16 {
        backend.read_page(id, Some(9)).unwrap();
    }
    backend.remove_session(9).unwrap();
    assert_eq!(backend.read_page(0, Some(9)), Err(DbErr::InvalidSession(9)));
    assert_eq!(backend.db_size(), 16 * 4096);
    assert_eq!(backend.transaction_type(), None);
}

#[test]
fn set_db_size_outside_transaction_changes_nothing() {
    let mut backend = MemoryBackendInner::new(4096, 16);
    backend.set_db_size(4096).unwrap();
    assert_eq!(backend.db_size(), 16 * 4096);
}

#[test]
fn config_defaults() {
    let config = Config::default();
    assert_eq!(config.init_block_count, 16);
    assert_eq!(config.journal_full_size, 1000);
    assert!(config.check_db_version);
}

#[test]
fn page_cache_keeps_latest_and_evicts_oldest() {
    let mut cache = PageCache::new(2);
    assert_eq!(cache.get_from_cache(1), None);
    cache.insert_to_cache(&filled(1, 1));
    cache.insert_to_cache(&filled(2, 2));
    cache.insert_to_cache(&filled(1, 3));
    assert_eq!(cache.get_from_cache(1).unwrap().data, vec![3u8; 4096]);
    cache.insert_to_cache(&filled(4, 4));
    assert_eq!(cache.get_from_cache(1), None);
    assert_eq!(cache.get_from_cache(4).unwrap().data, vec![4u8; 4096]);
    assert_eq!(cache.get_from_cache(2).unwrap().data, vec![2u8; 4096]);
}

#[test]
fn upgrade_keeps_active_write_transaction() {
    let mut backend = MemoryBackendInner::new(4096, 16);
    backend.start_transaction(TransactionType::Write).unwrap();
    backend.write_page(&filled(4, 0x44), None).unwrap();
    backend.upgrade_read_transaction_to_write().unwrap();
    assert_eq!(backend.read_page(4, None).unwrap().data, vec![0x44; 4096]);
    backend.commit().unwrap();
    assert_eq!(backend.read_page(4, None).unwrap().data, vec![0x44; 4096]);
}

#[test]
fn set_db_size_in_read_transaction_changes_nothing() {
    let mut backend = MemoryBackendInner::new(4096, 16);
    backend.start_transaction(TransactionType::Read).unwrap();
    backend.set_db_size(100 * 4096).unwrap();
    assert_eq!(backend.db_size(), 16 * 4096);
    assert_eq!(backend.read_page(50, None), Err(DbErr::PageNotExist(50)));
}
