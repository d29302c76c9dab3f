use rustest::session::{MemError, Mlock, MlockHeap, CHUNK_SIZE_BYTES, CHUNK_SIZE_MB};

#[test]
fn new_session_is_empty() {
    let s = Mlock::new();
    assert_eq!(s.locked.len(), 0);
    assert_eq!(s.unlocked.len(), 0);
    assert_eq!(s.quantum, CHUNK_SIZE_BYTES);
}

#[test]
fn three_locked_adds_report_three_quanta() {
    // Start with zero regions, add three locked ones: the locked heap
    // reports three quanta, the unlocked heap reports zero.
    let mut s = Mlock::new();
    for _ in 0..3 {
        assert!(s.add(MlockHeap::Locked, true, true).is_ok());
    }
    assert_eq!(s.total_size(MlockHeap::Locked), 3 * CHUNK_SIZE_BYTES);
    assert_eq!(s.total_size(MlockHeap::Unlocked), 0);
    assert_eq!(s.locked_mb(), 3 * CHUNK_SIZE_MB);
    assert_eq!(s.unlocked_mb(), 0);
}

#[test]
fn unlocked_removal_is_lifo() {
    // Two unlocked adds then one remove leave exactly the first-added
    // region, recognizable by its probe byte.
    let mut s = Mlock::new();
    assert!(s.add(MlockHeap::Unlocked, true, true).is_ok());
    assert!(s.add(MlockHeap::Unlocked, true, true).is_ok());
    assert_eq!(s.unlocked[0].fill, 1);
    assert_eq!(s.unlocked[1].fill, 2);
    assert!(s.remove(MlockHeap::Unlocked));
    assert_eq!(s.unlocked.len(), 1);
    assert_eq!(s.unlocked[0].fill, 1);
    assert_eq!(s.locked.len(), 0);
}

#[test]
fn add_then_remove_unlocked_is_a_round_trip() {
    let mut s = Mlock::new();
    assert!(s.add(MlockHeap::Unlocked, true, true).is_ok());
    let before = s.unlocked.clone();
    assert!(s.add(MlockHeap::Unlocked, true, true).is_ok());
    assert!(s.remove(MlockHeap::Unlocked));
    assert_eq!(s.unlocked, before);
}

#[test]
fn locked_count_follows_net_adds() {
    // add, add, remove, add: net two adds, then one more.
    let mut s = Mlock::new();
    assert!(s.add(MlockHeap::Locked, true, true).is_ok());
    assert!(s.add(MlockHeap::Locked, true, true).is_ok());
    assert!(s.remove(MlockHeap::Locked));
    assert!(s.add(MlockHeap::Locked, true, true).is_ok());
    assert_eq!(s.locked.len(), 2);
    assert_eq!(s.total_size(MlockHeap::Locked), 2 * CHUNK_SIZE_BYTES);
    assert_eq!(s.total_size(MlockHeap::Locked) % s.quantum, 0);
}

#[test]
fn remove_on_empty_heap_reports_nothing_to_remove() {
    let mut s = Mlock::new();
    assert!(!s.remove(MlockHeap::Locked));
    assert!(!s.remove(MlockHeap::Unlocked));
    assert_eq!(s.locked.len(), 0);
    assert_eq!(s.unlocked.len(), 0);
}

#[test]
fn failed_map_leaves_session_unchanged() {
    let mut s = Mlock::new();
    assert_eq!(s.add(MlockHeap::Locked, false, true), Err(MemError::MapFailed));
    assert_eq!(s.add(MlockHeap::Unlocked, false, true), Err(MemError::MapFailed));
    assert_eq!(s.locked.len(), 0);
    assert_eq!(s.unlocked.len(), 0);
}

#[test]
fn failed_lock_retains_no_partial_region() {
    let mut s = Mlock::new();
    assert!(s.add(MlockHeap::Locked, true, true).is_ok());
    assert_eq!(s.add(MlockHeap::Locked, true, false), Err(MemError::LockFailed));
    assert_eq!(s.locked.len(), 1);
    assert_eq!(s.unlocked.len(), 0);
}

#[test]
fn page_in_twice_changes_nothing_after_the_first() {
    let mut s = Mlock::new();
    assert!(s.add(MlockHeap::Unlocked, true, true).is_ok());
    assert!(s.add(MlockHeap::Unlocked, true, true).is_ok());
    s.page_in();
    let after_first_locked = s.locked.clone();
    let after_first_unlocked = s.unlocked.clone();
    s.page_in();
    assert_eq!(s.locked, after_first_locked);
    assert_eq!(s.unlocked, after_first_unlocked);
    assert!(s.unlocked.iter().all(|r| r.resident));
}

#[test]
fn probe_byte_wraps_after_two_hundred_fifty_five_regions() {
    let mut s = Mlock::new();
    for _ in 0..256 {
        assert!(s.add(MlockHeap::Unlocked, true, true).is_ok());
    }
    assert_eq!(s.unlocked[254].fill, 255);
    assert_eq!(s.unlocked[255].fill, 0);
}

#[test]
fn session_render_shows_both_heaps() {
    let mut s = Mlock::new();
    assert!(s.add(MlockHeap::Locked, true, true).is_ok());
    let expected = format!("locked {:5} MB, unlocked {:5} MB", CHUNK_SIZE_MB, 0);
    assert_eq!(s.render(), expected);
}
