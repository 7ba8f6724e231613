use sulog_poller::diag::{Diag, DiagEvent};
use sulog_poller::poller::fetch_and_persist_once;
use sulog_poller::store::{should_rotate, IoOutcome, LogStore, ROTATE_SIZE_BYTES};

fn all_ok() -> IoOutcome {
    IoOutcome { dir_ok: true, rename_ok: true, open_ok: true, write_ok: true }
}

#[test]
fn appends_accumulate_without_rotation() {
    let mut store = LogStore::new();
    let mut diag = Diag::new();
    let blob = b"hello";
    for _ in 0..3 {
        let r = store.persist_sulog_content(blob, all_ok(), &mut diag);
        assert!(r.is_ok());
    }
    assert_eq!(store.current_len(), 3 * blob.len());
    assert_eq!(store.current_bytes().as_slice(), b"hellohellohello");
    assert!(store.backup_bytes().is_none());
    assert!(diag.events().is_empty());
}

#[test]
fn empty_blob_writes_nothing() {
    let mut store = LogStore::new();
    let mut diag = Diag::new();
    store.persist_sulog_content(b"abc", all_ok(), &mut diag).unwrap();
    let before = store.current_len();
    let r = store.persist_sulog_content(b"", all_ok(), &mut diag);
    assert!(r.is_ok());
    assert_eq!(store.current_len(), before);
    assert_eq!(store.current_bytes().as_slice(), b"abc");
    assert!(diag.events().is_empty());
}

#[test]
fn rotation_moves_prior_contents_to_backup() {
    let mut store = LogStore::new();
    let mut diag = Diag::new();
    let big = vec![0xabu8; ROTATE_SIZE_BYTES as usize + 1];
    store.persist_sulog_content(&big, all_ok(), &mut diag).unwrap();
    assert!(store.backup_bytes().is_none());

    let r = store.persist_sulog_content(b"fresh", all_ok(), &mut diag);
    assert!(r.is_ok());
    assert_eq!(store.current_bytes().as_slice(), b"fresh");
    assert_eq!(store.backup_bytes().unwrap(), &big);
    assert!(diag.events().is_empty());
}

#[test]
fn no_rotation_at_exactly_the_threshold() {
    let mut store = LogStore::new();
    let mut diag = Diag::new();
    let big = vec![0u8; ROTATE_SIZE_BYTES as usize];
    store.persist_sulog_content(&big, all_ok(), &mut diag).unwrap();

    let r = store.persist_sulog_content(b"x", all_ok(), &mut diag);
    assert!(r.is_ok());
    assert_eq!(store.current_len(), ROTATE_SIZE_BYTES as usize + 1);
    assert!(store.backup_bytes().is_none());
}

#[test]
fn rotation_overwrites_prior_backup() {
    let mut store = LogStore::new();
    let mut diag = Diag::new();
    let first = vec![1u8; ROTATE_SIZE_BYTES as usize + 1];
    let second = vec![2u8; ROTATE_SIZE_BYTES as usize + 1];
    store.persist_sulog_content(&first, all_ok(), &mut diag).unwrap();
    store.persist_sulog_content(&second, all_ok(), &mut diag).unwrap();
    assert_eq!(store.backup_bytes().unwrap(), &first);
    store.persist_sulog_content(b"tail", all_ok(), &mut diag).unwrap();
    assert_eq!(store.backup_bytes().unwrap(), &second);
    assert_eq!(store.current_bytes().as_slice(), b"tail");
}

#[test]
fn failed_rename_appends_to_oversized_file() {
    let mut store = LogStore::new();
    let mut diag = Diag::new();
    let big = vec![7u8; ROTATE_SIZE_BYTES as usize + 1];
    store.persist_sulog_content(&big, all_ok(), &mut diag).unwrap();

    let io = IoOutcome { rename_ok: false, ..all_ok() };
    let r = store.persist_sulog_content(b"more", io, &mut diag);
    assert!(r.is_ok());
    assert_eq!(store.current_len(), big.len() + 4);
    assert!(store.backup_bytes().is_none());
    assert_eq!(diag.events().as_slice(), &[DiagEvent::RotateFailed]);
}

#[test]
fn dir_failure_reports_and_leaves_file_untouched() {
    let mut store = LogStore::new();
    let mut diag = Diag::new();
    store.persist_sulog_content(b"kept", all_ok(), &mut diag).unwrap();

    let io = IoOutcome { dir_ok: false, ..all_ok() };
    let r = store.persist_sulog_content(b"lost", io, &mut diag);
    assert!(r.is_err());
    assert_eq!(store.current_bytes().as_slice(), b"kept");
    assert!(store.backup_bytes().is_none());
    assert_eq!(diag.events().as_slice(), &[DiagEvent::EnsureDirFailed]);
}

#[test]
fn open_failure_reports_after_rotation() {
    let mut store = LogStore::new();
    let mut diag = Diag::new();
    let big = vec![9u8; ROTATE_SIZE_BYTES as usize + 1];
    store.persist_sulog_content(&big, all_ok(), &mut diag).unwrap();

    let io = IoOutcome { open_ok: false, ..all_ok() };
    let r = store.persist_sulog_content(b"blob", io, &mut diag);
    assert!(r.is_err());
    // rotation already happened; the append did not
    assert_eq!(store.current_len(), 0);
    assert_eq!(store.backup_bytes().unwrap(), &big);
    assert_eq!(diag.events().as_slice(), &[DiagEvent::OpenFailed]);
}

#[test]
fn write_failure_reports_and_appends_nothing() {
    let mut store = LogStore::new();
    let mut diag = Diag::new();
    let io = IoOutcome { write_ok: false, ..all_ok() };
    let r = store.persist_sulog_content(b"blob", io, &mut diag);
    assert!(r.is_err());
    assert_eq!(store.current_len(), 0);
    assert_eq!(diag.events().as_slice(), &[DiagEvent::WriteFailed]);
}

#[test]
fn should_rotate_is_strictly_over_threshold() {
    assert!(!should_rotate(0));
    assert!(!should_rotate(ROTATE_SIZE_BYTES));
    assert!(should_rotate(ROTATE_SIZE_BYTES + 1));
}

#[test]
fn cycle_persists_fetched_blob() {
    let mut store = LogStore::new();
    let mut diag = Diag::new();
    fetch_and_persist_once(&mut store, Some(b"payload".to_vec()), all_ok(), &mut diag);
    assert_eq!(store.current_bytes().as_slice(), b"payload");
    assert!(diag.events().is_empty());
}

#[test]
fn cycle_swallows_fetch_failure() {
    let mut store = LogStore::new();
    let mut diag = Diag::new();
    store.persist_sulog_content(b"old", all_ok(), &mut diag).unwrap();
    fetch_and_persist_once(&mut store, None, all_ok(), &mut diag);
    assert_eq!(store.current_bytes().as_slice(), b"old");
    assert_eq!(diag.events().as_slice(), &[DiagEvent::FetchFailed]);
}

#[test]
fn cycle_reports_persist_failure_on_top() {
    let mut store = LogStore::new();
    let mut diag = Diag::new();
    let io = IoOutcome { dir_ok: false, ..all_ok() };
    fetch_and_persist_once(&mut store, Some(b"blob".to_vec()), io, &mut diag);
    assert_eq!(store.current_len(), 0);
    assert_eq!(
        diag.events().as_slice(),
        &[DiagEvent::EnsureDirFailed, DiagEvent::PersistFailed]
    );
}

#[test]
fn cycle_with_empty_fetched_blob_changes_nothing() {
    let mut store = LogStore::new();
    let mut diag = Diag::new();
    store.persist_sulog_content(b"base", all_ok(), &mut diag).unwrap();
    fetch_and_persist_once(&mut store, Some(Vec::new()), all_ok(), &mut diag);
    assert_eq!(store.current_bytes().as_slice(), b"base");
    assert!(diag.events().is_empty());
}
