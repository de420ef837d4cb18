use store_core::{AllocError, ByteBuf};

const PAGE_SIZE: usize = 4096;

// This is not required since wasm memories can only grow but nice to have.
#[test]
fn byte_buf_shrink() {
    let mut byte_buf = ByteBuf::new(PAGE_SIZE * 3).unwrap();
    byte_buf.realloc(PAGE_SIZE * 2).unwrap();
}

#[test]
fn new_zero_len_is_empty() {
    let buf = ByteBuf::new(0).unwrap();
    assert_eq!(buf.len(), 0);
    assert_eq!(buf.as_slice().len(), 0);
}

#[test]
fn new_is_zero_filled() {
    let buf = ByteBuf::new(64).unwrap();
    assert_eq!(buf.len(), 64);
    assert!(buf.as_slice().iter().all(|&b| b == 0));
}

#[test]
fn grow_preserves_prefix_and_zero_extends() {
    let mut buf = ByteBuf::new(5).unwrap();
    buf.as_slice_mut().copy_from_slice(&[1, 2, 3, 4, 5]);
    buf.realloc(8).unwrap();
    assert_eq!(buf.len(), 8);
    assert_eq!(buf.as_slice(), &[1, 2, 3, 4, 5, 0, 0, 0]);
}

#[test]
fn shrink_truncates_to_prefix() {
    let mut buf = ByteBuf::new(5).unwrap();
    buf.as_slice_mut().copy_from_slice(&[9, 8, 7, 6, 5]);
    buf.realloc(3).unwrap();
    assert_eq!(buf.len(), 3);
    assert_eq!(buf.as_slice(), &[9, 8, 7]);
}

#[test]
fn realloc_to_zero_empties_the_buffer() {
    let mut buf = ByteBuf::new(16).unwrap();
    buf.realloc(0).unwrap();
    assert_eq!(buf.len(), 0);
    assert_eq!(buf.as_slice().len(), 0);
}

#[test]
fn erase_zero_fills_same_length() {
    let mut buf = ByteBuf::new(32).unwrap();
    for b in buf.as_slice_mut() {
        *b = 0xAA;
    }
    buf.erase().unwrap();
    assert_eq!(buf.len(), 32);
    assert!(buf.as_slice().iter().all(|&b| b == 0));
}

#[test]
fn erase_on_empty_buffer_is_a_no_op() {
    let mut buf = ByteBuf::new(0).unwrap();
    buf.erase().unwrap();
    assert_eq!(buf.len(), 0);
}

#[test]
fn realloc_pattern_scenario() {
    let mut buf = ByteBuf::new(8192).unwrap();
    for b in buf.as_slice_mut() {
        *b = 0xAA;
    }
    buf.realloc(4096).unwrap();
    assert_eq!(buf.len(), 4096);
    assert!(buf.as_slice().iter().all(|&b| b == 0xAA));
    buf.realloc(8192).unwrap();
    assert_eq!(buf.len(), 8192);
    assert!(buf.as_slice()[..4096].iter().all(|&b| b == 0xAA));
    assert!(buf.as_slice()[4096..].iter().all(|&b| b == 0x00));
}

#[test]
fn new_rejects_oversized_length() {
    let r = ByteBuf::new(usize::MAX);
    assert_eq!(r.err(), Some(AllocError::LenTooLarge));
}

#[test]
fn realloc_rejects_oversized_length_and_keeps_content() {
    let mut buf = ByteBuf::new(4).unwrap();
    buf.as_slice_mut().copy_from_slice(&[1, 2, 3, 4]);
    let r = buf.realloc(usize::MAX);
    assert_eq!(r, Err(AllocError::LenTooLarge));
    assert_eq!(buf.as_slice(), &[1, 2, 3, 4]);
}

#[test]
fn raw_alloc_rejects_zero_len() {
    let r = store_core::bytebuf::RawAlloc::new(0);
    assert_eq!(r.err(), Some(AllocError::ZeroLen));
}

#[test]
fn raw_alloc_rejects_oversized_len() {
    let r = store_core::bytebuf::RawAlloc::new((isize::MAX as usize) + 1);
    assert_eq!(r.err(), Some(AllocError::LenTooLarge));
}
