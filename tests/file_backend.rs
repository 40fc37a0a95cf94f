use polodb_core::config::Config;
use polodb_core::error::DbErr;
use polodb_core::file_backend::check_db_version;
use polodb_core::file_backend::init_db;
use polodb_core::file_backend::main_file_has_page;
use polodb_core::file_backend::mk_journal_path;
use polodb_core::file_backend::CommitPlan;
use polodb_core::file_backend::FileBackendCore;
use polodb_core::file_backend::InitDbResult;
use polodb_core::file_backend::ReadSource;
use polodb_core::journal::decode_record_header;
use polodb_core::journal::encode_record_header;
use polodb_core::journal::JournalManager;
use polodb_core::journal::RecordHeader;
use polodb_core::journal::RecordKind;
use polodb_core::page::RawPage;
use polodb_core::transaction::TransactionType;

const RECORD: u64 = 16 + 4096;

fn filled(page_id: u32, byte: u8) -> RawPage {
    RawPage { page_id, data: vec![byte; 4096] }
}

fn page(page_id: u32) -> RecordHeader {
    RecordHeader { kind: RecordKind::Page, page_id, db_size: 0 }
}

fn commit(db_size: u64) -> RecordHeader {
    RecordHeader { kind: RecordKind::Commit, page_id: 0, db_size }
}

fn fresh_core(journal_full_size: u64) -> FileBackendCore {
    let config = Config { init_block_count: 16, journal_full_size, check_db_version: true };
    FileBackendCore::open(4096, &config, 16 * 4096, &Vec::new())
}

#[test]
fn version_mismatch() {
    assert_eq!(
        check_db_version([0, 0, 0, 1]),
        Err(DbErr::VersionMismatch { expected: [0, 0, 0, 2], actual: [0, 0, 0, 1] })
    );
    assert_eq!(check_db_version([0, 0, 0, 2]), Ok(()));
}

#[test]
fn init_db_cases() {
    assert_eq!(init_db(0, 4096, 16, true), Ok(InitDbResult::Fresh { db_file_size: 65536 }));
    assert_eq!(
        init_db(8192, 4096, 16, false),
        Ok(InitDbResult::Existing { db_file_size: 8192, check_version: false })
    );
    assert_eq!(init_db(4097, 4096, 16, true), Err(DbErr::NotAValidDatabase));
}

#[test]
fn journal_path_appends_suffix() {
    assert_eq!(mk_journal_path("/tmp/x.db"), "/tmp/x.db.journal");
}

#[test]
fn zero_fill_beyond_main_file() {
    assert!(main_file_has_page(16 * 4096, 15, 4096));
    assert!(!main_file_has_page(16 * 4096, 16, 4096));
    assert!(!main_file_has_page(16 * 4096, 50, 4096));
}

#[test]
fn journaled_commit_survives_recovery() {
    let mut c = fresh_core(1_000_000);
    c.start_transaction(TransactionType::Write).unwrap();
    assert_eq!(c.write_page(&filled(7, 7), None), Ok(0));
    let plan = c.commit().unwrap();
    assert_eq!(plan, CommitPlan { marker: Some(RECORD), checkpoint: false });

    let headers = vec![page(7), commit(16 * 4096)];
    let reopened = JournalManager::recover(4096, 16 * 4096, &headers);
    assert_eq!(reopened.read_page_main(7), Some(0));
    assert_eq!(reopened.len(), 2 * RECORD);
    assert_eq!(reopened.record_db_size(), 16 * 4096);
}

#[test]
fn recovery_drops_uncommitted_batch() {
    let headers = vec![page(1), commit(20 * 4096), page(1), page(2)];
    let j = JournalManager::recover(4096, 16 * 4096, &headers);
    assert_eq!(j.read_page_main(1), Some(0));
    assert_eq!(j.read_page_main(2), None);
    assert_eq!(j.len(), 2 * RECORD);
    assert_eq!(j.record_db_size(), 20 * 4096);

    let none_committed = JournalManager::recover(4096, 16 * 4096, &vec![page(4)]);
    assert_eq!(none_committed.read_page_main(4), None);
    assert_eq!(none_committed.len(), 0);
    assert_eq!(none_committed.record_db_size(), 16 * 4096);
}

#[test]
fn file_session_isolation_and_checkpoint() {
    let mut c = fresh_core(0);
    c.start_transaction(TransactionType::Write).unwrap();
    assert_eq!(c.write_page(&filled(3, 0x01), None), Ok(0));
    c.commit().unwrap();

    c.new_session(77).unwrap();
    c.start_transaction(TransactionType::Write).unwrap();
    assert_eq!(c.write_page(&filled(3, 0x02), None), Ok(2 * RECORD));
    let plan = c.commit().unwrap();
    assert_eq!(plan, CommitPlan { marker: Some(3 * RECORD), checkpoint: false });

    assert_eq!(c.read_page(3, Some(77)), Ok(ReadSource::Journal(0)));
    assert_eq!(c.read_page(3, None), Ok(ReadSource::Cached(filled(3, 0x02))));
    assert_eq!(c.read_page(4, Some(77)), Ok(ReadSource::MainFile));
    assert_eq!(c.read_page(16, Some(77)), Err(DbErr::PageNotExist(16)));
    assert_eq!(c.finish_checkpoint(), Err(DbErr::Busy));

    c.remove_session(77).unwrap();
    assert_eq!(c.checkpoint_plan(), vec![(3, 2 * RECORD)]);
    c.finish_checkpoint().unwrap();
    assert_eq!(c.journal_len(), 0);
    assert_eq!(c.read_page(3, None), Ok(ReadSource::Cached(filled(3, 0x02))));
    assert_eq!(c.read_page(5, None), Ok(ReadSource::MainFile));
    assert_eq!(c.read_page(3, Some(77)), Err(DbErr::InvalidSession(77)));
}

#[test]
fn commit_checkpoints_when_full_and_no_session() {
    let mut c = fresh_core(RECORD);
    c.start_transaction(TransactionType::Write).unwrap();
    c.write_page(&filled(1, 1), None).unwrap();
    let plan = c.commit().unwrap();
    assert_eq!(plan, CommitPlan { marker: Some(RECORD), checkpoint: true });
}

#[test]
fn file_rollback_discards_pending() {
    let mut c = fresh_core(1_000_000);
    c.start_transaction(TransactionType::Write).unwrap();
    c.write_page(&filled(1, 1), None).unwrap();
    c.commit().unwrap();
    c.start_transaction(TransactionType::Write).unwrap();
    c.write_page(&filled(2, 2), None).unwrap();
    c.set_db_size(90 * 4096).unwrap();
    assert_eq!(c.db_size(), 90 * 4096);
    assert_eq!(c.read_page(2, None), Ok(ReadSource::Cached(filled(2, 2))));
    assert_eq!(c.rollback(), Ok(2 * RECORD));
    assert_eq!(c.read_page(2, None), Ok(ReadSource::MainFile));
    assert_eq!(c.read_page(1, None), Ok(ReadSource::Journal(0)));
    assert_eq!(c.db_size(), 16 * 4096);
    assert_eq!(c.rollback(), Err(DbErr::RollbackNotInTransaction));
}

#[test]
fn file_transaction_discipline() {
    let mut c = fresh_core(1_000_000);
    assert_eq!(c.write_page(&filled(1, 1), None), Err(DbErr::CannotWriteDbWithoutTransaction));
    assert!(matches!(c.commit(), Err(DbErr::CannotWriteDbWithoutTransaction)));
    c.start_transaction(TransactionType::Read).unwrap();
    assert_eq!(c.start_transaction(TransactionType::Write), Err(DbErr::Busy));
    assert_eq!(c.transaction_type(), Some(TransactionType::Read));
    c.upgrade_read_transaction_to_write().unwrap();
    assert_eq!(c.write_page(&filled(4, 4), None), Ok(0));
    assert_eq!(c.db_size(), 16 * 4096);
    c.write_page(&filled(30, 30), None).unwrap();
    assert_eq!(c.db_size(), 31 * 4096);
}

#[test]
fn record_header_bytes() {
    let h = RecordHeader { kind: RecordKind::Commit, page_id: 0x0102_0304, db_size: 0x1122_3344_5566_7788 };
    let bytes = encode_record_header(h);
    assert_eq!(
        bytes,
        vec![2, 0, 0, 0, 4, 3, 2, 1, 0x88, 0x77, 0x66, 0x55, 0x44, 0x33, 0x22, 0x11]
    );
    assert_eq!(decode_record_header(&bytes), Some(h));
    assert_eq!(decode_record_header(&bytes[..15]), None);
    let mut bad = bytes.clone();
    bad[0] = 3;
    assert_eq!(decode_record_header(&bad), None);
}

#[test]
fn file_zero_fill_growth_and_size_limit() {
    let mut c = fresh_core(1_000_000);
    assert_eq!(c.read_page(50, None), Err(DbErr::PageNotExist(50)));
    c.start_transaction(TransactionType::Write).unwrap();
    c.set_db_size(100 * 4096).unwrap();
    assert_eq!(c.commit_marker(), Ok(Some(0)));
    c.commit().unwrap();
    assert_eq!(c.db_size(), 100 * 4096);
    assert_eq!(c.read_page(50, None), Ok(ReadSource::MainFile));
    assert!(!main_file_has_page(16 * 4096, 50, 4096));
}

#[test]
fn file_set_db_size_outside_write_changes_nothing() {
    let mut c = fresh_core(1_000_000);
    c.start_transaction(TransactionType::Read).unwrap();
    c.set_db_size(100 * 4096).unwrap();
    assert_eq!(c.db_size(), 16 * 4096);
    assert_eq!(c.commit_marker(), Ok(None));
    assert_eq!(c.commit().unwrap().marker, None);
    assert_eq!(c.commit_marker(), Err(DbErr::CannotWriteDbWithoutTransaction));
}

#[test]
fn reopened_core_sees_recovered_index() {
    let config = Config::default();
    let headers = vec![page(7), commit(16 * 4096), page(8)];
    let c = FileBackendCore::open(4096, &config, 16 * 4096, &headers);
    assert_eq!(c.read_page(7, None), Ok(ReadSource::Journal(0)));
    assert_eq!(c.read_page(8, None), Ok(ReadSource::MainFile));
    assert_eq!(c.journal_len(), 2 * RECORD);
    assert_eq!(c.transaction_type(), None);
}
