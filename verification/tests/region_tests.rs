use rustest::region::{copy_chunks, effective_page_size, fill_bytes, page_offsets, Backing, Region};

#[test]
fn fill_touches_the_start_of_every_page_and_nothing_else() {
    // Length 10, page size 4: pages start at 0, 4 and 8 — exactly
    // ceil(10 / 4) = 3 distinct offsets; every other byte keeps its value.
    let mut bytes = vec![9u8; 10];
    fill_bytes(&mut bytes, 7, 4);
    assert_eq!(bytes, vec![7, 9, 9, 9, 7, 9, 9, 9, 7, 9]);
}

#[test]
fn fill_on_an_exact_multiple_touches_each_page_once() {
    let mut bytes = vec![0u8; 8];
    fill_bytes(&mut bytes, 3, 4);
    assert_eq!(bytes, vec![3, 0, 0, 0, 3, 0, 0, 0]);
}

#[test]
fn fill_on_an_empty_region_writes_nothing() {
    let mut bytes: Vec<u8> = Vec::new();
    fill_bytes(&mut bytes, 5, 4096);
    assert!(bytes.is_empty());
}

#[test]
fn page_offsets_enumerates_the_page_starts() {
    assert_eq!(page_offsets(10, 4), vec![0, 4, 8]);
    assert_eq!(page_offsets(8, 4), vec![0, 4]);
    assert_eq!(page_offsets(1, 4096), vec![0]);
    assert_eq!(page_offsets(0, 4096), Vec::<usize>::new());
}

#[test]
fn copy_chunks_covers_the_length_with_a_short_tail() {
    assert_eq!(copy_chunks(10, 4), vec![4, 4, 2]);
    assert_eq!(copy_chunks(8, 4), vec![4, 4]);
    assert_eq!(copy_chunks(3, 4096), vec![3]);
    assert_eq!(copy_chunks(0, 4096), Vec::<usize>::new());
    let chunks = copy_chunks(10_000, 4096);
    assert_eq!(chunks.iter().sum::<usize>(), 10_000);
}

#[test]
fn page_size_fallback_covers_nonsense_reports() {
    assert_eq!(effective_page_size(4096), 4096);
    assert_eq!(effective_page_size(16384), 16384);
    assert_eq!(effective_page_size(0), 4096);
    assert_eq!(effective_page_size(-1), 4096);
}

#[test]
fn region_model_tracks_lock_and_residency() {
    let mut r = Region::anonymous(1024);
    assert_eq!(r.len, 1024);
    assert_eq!(r.backing, Backing::Anonymous);
    assert!(!r.locked && !r.resident);
    r.lock();
    assert!(r.locked && r.resident);
    r.unlock();
    assert!(!r.locked && r.resident);
    r.fill(42);
    assert_eq!(r.fill, 42);

    let mut f = Region::file_backed(2048);
    assert_eq!(f.backing, Backing::FileBacked);
    assert!(!f.resident);
    f.page_in();
    assert!(f.resident && !f.locked);
}
