use polodb_core::error::DbErr;
use polodb_core::indexeddb_backend::IndexedDbBackendInner;
use polodb_core::page::RawPage;
use polodb_core::session_id::generate_session_id;
use polodb_core::session_id::session_id_from_bytes;
use polodb_core::store_data::IndexedDbStoreFrame;
use polodb_core::transaction::TransactionType;
use std::io::Read;

fn filled(page_id: u32, byte: u8) -> RawPage {
    RawPage { page_id, data: vec![byte; 4096] }
}

fn decompress(frame: &[u8]) -> Vec<u8> {
    let mut out = Vec::new();
    lz4_flex::frame::FrameDecoder::new(frame).read_to_end(&mut out).unwrap();
    out
}

#[test]
fn commit_yields_compressed_frame() {
    let mut backend = IndexedDbBackendInner::open("abc123".to_string(), 4096, 16);
    backend.start_transaction(TransactionType::Write).unwrap();
    backend.write_page(&filled(9, 0x5a), None).unwrap();
    backend.write_page(&filled(2, 0x11), None).unwrap();
    let frame = backend.commit().unwrap();

    assert_eq!(frame.page_ids, vec![2, 9]);
    assert_eq!(frame.sid, "abc123");
    assert_eq!(frame.pages.len(), 2);
    assert_ne!(frame.pages[0], vec![0x11u8; 4096]);
    assert_eq!(decompress(&frame.pages[0]), vec![0x11u8; 4096]);
    assert_eq!(decompress(&frame.pages[1]), vec![0x5au8; 4096]);
    assert_eq!(backend.read_page(9, None).unwrap().data, vec![0x5a; 4096]);
}

#[test]
fn replaying_frames_rebuilds_pages() {
    let mut writer = IndexedDbBackendInner::open("w".to_string(), 4096, 16);
    writer.start_transaction(TransactionType::Write).unwrap();
    writer.write_page(&filled(3, 1), None).unwrap();
    let first = writer.commit().unwrap();
    writer.start_transaction(TransactionType::Write).unwrap();
    writer.write_page(&filled(3, 2), None).unwrap();
    writer.write_page(&filled(40, 4), None).unwrap();
    let second = writer.commit().unwrap();

    let mut reader = IndexedDbBackendInner::open("r".to_string(), 4096, 16);
    reader.load_frame(&first).unwrap();
    reader.load_frame(&second).unwrap();
    assert_eq!(reader.read_page(3, None).unwrap().data, vec![2u8; 4096]);
    assert_eq!(reader.read_page(40, None).unwrap().data, vec![4u8; 4096]);
    assert_eq!(reader.db_size(), 41 * 4096);
}

#[test]
fn replay_rejects_malformed_frames() {
    let mut backend = IndexedDbBackendInner::open("s".to_string(), 4096, 16);
    let mut frame = IndexedDbStoreFrame::default();
    frame.page_ids.push(1);
    assert_eq!(backend.load_frame(&frame), Err(DbErr::NotAValidDatabase));
    frame.pages.push(vec![1, 2, 3]);
    assert_eq!(backend.load_frame(&frame), Err(DbErr::Compression));
    assert_eq!(backend.read_page(1, None).unwrap().data, vec![0u8; 4096]);

    backend.start_transaction(TransactionType::Read).unwrap();
    assert_eq!(backend.load_frame(&IndexedDbStoreFrame::default()), Err(DbErr::Busy));
}

#[test]
fn store_frame_default_is_empty() {
    let frame = IndexedDbStoreFrame::default();
    assert!(frame.pages.is_empty());
    assert!(frame.page_ids.is_empty());
    assert!(frame.sid.is_empty());
}

#[test]
fn browser_backend_sessions_and_errors() {
    let mut backend = IndexedDbBackendInner::open("s".to_string(), 4096, 16);
    assert!(matches!(backend.commit(), Err(DbErr::CannotWriteDbWithoutTransaction)));
    backend.new_session(5).unwrap();
    backend.start_transaction(TransactionType::Write).unwrap();
    backend.set_db_size(32 * 4096).unwrap();
    backend.write_page(&filled(1, 7), None).unwrap();
    backend.commit().unwrap();
    assert_eq!(backend.read_page(1, Some(5)).unwrap().data, vec![0u8; 4096]);
    assert_eq!(backend.read_page(20, Some(5)), Err(DbErr::PageNotExist(20)));
    assert_eq!(backend.read_page(20, None).unwrap().data, vec![0u8; 4096]);
    backend.remove_session(5).unwrap();
    assert_eq!(backend.read_page(1, Some(5)), Err(DbErr::InvalidSession(5)));
    assert_eq!(backend.rollback(), Err(DbErr::RollbackNotInTransaction));
    backend.upgrade_read_transaction_to_write().unwrap();
    assert_eq!(backend.transaction_type(), Some(TransactionType::Write));
}

#[test]
fn session_id_characters() {
    let bytes = vec![0u8, 25, 26, 51, 52, 61, 62, 255];
    let id = session_id_from_bytes(&bytes);
    assert_eq!(String::from_utf8(id).unwrap(), "azAZ09ah");
}

#[test]
fn generated_session_id_is_alphanumeric() {
    let id = generate_session_id(6).unwrap();
    assert_eq!(id.len(), 6);
    assert!(id.chars().all(|c| c.is_ascii_alphanumeric()));
}

#[test]
fn header_page_layout() {
    let header = RawPage::init_header(4096);
    assert_eq!(header.page_id, 0);
    assert_eq!(header.data.len(), 4096);
    assert_eq!(&header.data[32..36], &[0, 0, 0, 2]);
    assert!(header.data[..32].iter().all(|b| *b == 0));
    assert!(header.data[36..].iter().all(|b| *b == 0));
}

#[test]
fn replay_pages_writes_in_order() {
    let mut backend = IndexedDbBackendInner::open("p".to_string(), 4096, 16);
    let ids = vec![6, 6, 30];
    let pages = vec![vec![1u8; 4096], vec![2u8; 4096], vec![3u8; 4096]];
    backend.replay_pages(&ids, &pages).unwrap();
    assert_eq!(backend.read_page(6, None).unwrap().data, vec![2u8; 4096]);
    assert_eq!(backend.read_page(30, None).unwrap().data, vec![3u8; 4096]);
    assert_eq!(backend.db_size(), 31 * 4096);
    assert_eq!(backend.replay_pages(&vec![1], &Vec::new()), Err(DbErr::NotAValidDatabase));
}
