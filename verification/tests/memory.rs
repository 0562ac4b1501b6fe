use varnish_guest::sysalloc::{
    bytes_eq, contains_bytes, mem_cmp, mem_copy, mem_eq, mem_move, mem_set, push_all, str_len,
    HostHeap, ALLOC_FAILED,
};

#[test]
fn allocate_returns_nonzero_and_distinct() {
    let mut h = HostHeap::new();
    let a = h.allocate(16, 8);
    let b = h.allocate(32, 8);
    assert_ne!(a, ALLOC_FAILED);
    assert_ne!(b, ALLOC_FAILED);
    assert_ne!(a, b);
    assert_eq!(a % 8, 0);
    assert_eq!(b % 8, 0);
}

#[test]
fn allocate_zero_size_fails() {
    let mut h = HostHeap::new();
    assert_eq!(h.allocate(0, 1), ALLOC_FAILED);
}

#[test]
fn allocate_zeroed_gives_zeroes() {
    let mut h = HostHeap::new();
    let a = h.allocate_zeroed(8);
    assert_ne!(a, ALLOC_FAILED);
    assert!(h.blocks[0].data.iter().all(|&b| b == 0));
}

#[test]
fn reallocate_preserves_prefix() {
    let mut h = HostHeap::new();
    let a = h.allocate(4, 1);
    h.blocks[0].data = vec![1, 2, 3, 4];
    let b = h.reallocate(a, 6);
    assert_ne!(b, ALLOC_FAILED);
    let block = h.blocks.last().unwrap();
    assert_eq!(block.addr, b);
    assert_eq!(block.data, vec![1, 2, 3, 4, 0, 0]);
}

#[test]
fn reallocate_shrinks_content() {
    let mut h = HostHeap::new();
    let a = h.allocate(4, 1);
    h.blocks[0].data = vec![9, 8, 7, 6];
    let b = h.reallocate(a, 2);
    assert_ne!(b, ALLOC_FAILED);
    assert_eq!(h.blocks.last().unwrap().data, vec![9, 8]);
}

#[test]
fn deallocate_removes_block() {
    let mut h = HostHeap::new();
    let a = h.allocate(4, 1);
    let _b = h.allocate(4, 1);
    h.deallocate(a);
    assert_eq!(h.blocks.len(), 1);
    assert_ne!(h.blocks[0].addr, a);
}

#[test]
fn deallocate_unknown_is_noop() {
    let mut h = HostHeap::new();
    let _a = h.allocate(4, 1);
    h.deallocate(999_999);
    assert_eq!(h.blocks.len(), 1);
}

#[test]
fn mem_copy_copies_region() {
    let mut dst = vec![0u8; 6];
    mem_copy(&mut dst, 2, &[10, 11, 12, 13], 1, 3);
    assert_eq!(dst, vec![0, 0, 11, 12, 13, 0]);
}

#[test]
fn mem_move_overlap_forward() {
    let mut buf = vec![1u8, 2, 3, 4, 5, 6];
    mem_move(&mut buf, 0, 2, 4);
    assert_eq!(buf, vec![3, 4, 5, 6, 5, 6]);
}

#[test]
fn mem_move_overlap_backward() {
    let mut buf = vec![1u8, 2, 3, 4, 5, 6];
    mem_move(&mut buf, 2, 0, 4);
    assert_eq!(buf, vec![1, 2, 1, 2, 3, 4]);
}

#[test]
fn mem_set_fills_region() {
    let mut buf = vec![1u8; 5];
    mem_set(&mut buf, 1, 7, 3);
    assert_eq!(buf, vec![1, 7, 7, 7, 1]);
}

#[test]
fn mem_cmp_signs() {
    assert_eq!(mem_cmp(&[1, 2, 3], &[1, 2, 3], 3), 0);
    assert!(mem_cmp(&[1, 2, 2], &[1, 2, 3], 3) < 0);
    assert!(mem_cmp(&[1, 3, 0], &[1, 2, 9], 3) > 0);
    assert_eq!(mem_cmp(&[1, 9], &[1, 8], 1), 0);
}

#[test]
fn mem_eq_and_bytes_eq() {
    assert!(mem_eq(&[5, 6, 7], &[5, 6, 9], 2));
    assert!(!mem_eq(&[5, 6, 7], &[5, 6, 9], 3));
    assert!(bytes_eq(b"abc", b"abc"));
    assert!(!bytes_eq(b"abc", b"abd"));
    assert!(!bytes_eq(b"abc", b"ab"));
}

#[test]
fn str_len_scans_for_terminator() {
    assert_eq!(str_len(&[104, 105, 0, 7]), Some(2));
    assert_eq!(str_len(&[0]), Some(0));
    assert_eq!(str_len(&[1, 2, 3]), None);
}

#[test]
fn push_all_appends() {
    let mut v = vec![1u8, 2];
    push_all(&mut v, &[3, 4]);
    assert_eq!(v, vec![1, 2, 3, 4]);
}

#[test]
fn contains_bytes_finds_runs() {
    assert!(contains_bytes(b"/api/cat/photo", b"/cat"));
    assert!(contains_bytes(b"/cat", b"/cat"));
    assert!(!contains_bytes(b"/dog", b"/cat"));
    assert!(contains_bytes(b"anything", b""));
    assert!(!contains_bytes(b"ca", b"cat"));
}
