use mgm::memory::Block;

#[test]
fn memory_test() {
    let mut b = Block::<f32>::new(16).unwrap();
    *b.index_mut(10) = 16.4;
    println!("{}", b.index(10));
}

#[test]
fn new_reports_length_and_size() {
    let b = Block::<u32>::new(5).unwrap();
    assert_eq!(b.len(), 5);
    assert_eq!(b.size(), 20);
    let b = Block::<u8>::new(7).unwrap();
    assert_eq!(b.len(), 7);
    assert_eq!(b.size(), 7);
    let b = Block::<u64>::new(3).unwrap();
    assert_eq!(b.len(), 3);
    assert_eq!(b.size(), 24);
}

#[test]
fn new_zero_len_is_empty() {
    let b = Block::<u32>::new(0).unwrap();
    assert_eq!(b.len(), 0);
    assert_eq!(b.size(), 0);
    assert!(!b.has_data());
}

#[test]
fn new_overflowing_size_is_an_error() {
    let b = Block::<u64>::new(usize::MAX / 4);
    match b {
        Ok(_) => panic!("a block with an overflowing byte size was built"),
        Err(e) => assert_eq!(e, "Allocation Fail"),
    }
}

#[test]
fn new_zeroed_is_all_zero() {
    let b = Block::<u32>::new_zeroed(6).unwrap();
    for i in 0..6 {
        assert_eq!(*b.index(i), 0);
    }
    let b = Block::<i16>::new_zeroed(4).unwrap();
    for i in 0..4 {
        assert_eq!(*b.index(i), 0);
    }
}

#[test]
fn init_zeroed_clears_every_element() {
    let src = [5u32, 6, 7];
    let mut b = Block::<u32>::from_ptr(&src, 3).unwrap();
    b.init_zeroed();
    assert_eq!(b.len(), 3);
    for i in 0..3 {
        assert_eq!(*b.index(i), 0);
    }
}

#[test]
fn copy_to_copies_prefix_and_keeps_tail() {
    let src = [1u32, 2, 3];
    let a = Block::<u32>::from_ptr(&src, 3).unwrap();
    let mut b = Block::<u32>::new_zeroed(5).unwrap();
    *b.index_mut(3) = 40;
    *b.index_mut(4) = 50;
    a.copy_to(&mut b);
    assert_eq!(b.len(), 5);
    assert_eq!(*b.index(0), 1);
    assert_eq!(*b.index(1), 2);
    assert_eq!(*b.index(2), 3);
    assert_eq!(*b.index(3), 40);
    assert_eq!(*b.index(4), 50);

    let mut c = Block::<u32>::new_zeroed(2).unwrap();
    a.copy_to(&mut c);
    assert_eq!(c.len(), 2);
    assert_eq!(*c.index(0), 1);
    assert_eq!(*c.index(1), 2);
}

#[test]
fn copy_to_empty_is_a_no_op() {
    let a = Block::<u32>::new(0).unwrap();
    let src = [9u32, 8];
    let mut b = Block::<u32>::from_ptr(&src, 2).unwrap();
    a.copy_to(&mut b);
    assert_eq!(*b.index(0), 9);
    assert_eq!(*b.index(1), 8);
}

#[test]
fn destroy_is_idempotent() {
    let mut b = Block::<u32>::new_zeroed(4).unwrap();
    b.destroy();
    assert_eq!(b.len(), 0);
    assert!(!b.has_data());
    b.destroy();
    assert_eq!(b.len(), 0);
    assert!(!b.has_data());
}

#[test]
fn realloc_grow_preserves_prefix() {
    let src = [10u32, 20, 30];
    let mut b = Block::<u32>::from_ptr(&src, 3).unwrap();
    b.realloc(5).unwrap();
    assert_eq!(b.len(), 5);
    assert_eq!(b.size(), 20);
    assert_eq!(*b.index(0), 10);
    assert_eq!(*b.index(1), 20);
    assert_eq!(*b.index(2), 30);
}

#[test]
fn realloc_shrink_keeps_prefix() {
    let src = [10u32, 20, 30, 40];
    let mut b = Block::<u32>::from_ptr(&src, 4).unwrap();
    b.realloc(2).unwrap();
    assert_eq!(b.len(), 2);
    assert_eq!(*b.index(0), 10);
    assert_eq!(*b.index(1), 20);
}

#[test]
fn realloc_to_zero_is_release() {
    let src = [1u32, 2];
    let mut b = Block::<u32>::from_ptr(&src, 2).unwrap();
    b.realloc(0).unwrap();
    assert_eq!(b.len(), 0);
    assert!(!b.has_data());
}

#[test]
fn realloc_overflow_leaves_block_unchanged() {
    let src = [1u64, 2, 3];
    let mut b = Block::<u64>::from_ptr(&src, 3).unwrap();
    match b.realloc(usize::MAX / 4) {
        Ok(()) => panic!("a resize with an overflowing byte size succeeded"),
        Err(e) => assert_eq!(e, "Allocation Fail"),
    }
    assert_eq!(b.len(), 3);
    assert_eq!(*b.index(0), 1);
    assert_eq!(*b.index(1), 2);
    assert_eq!(*b.index(2), 3);
}

#[test]
fn from_ptr_duplicates_without_aliasing() {
    let mut src = vec![1u32, 2, 3];
    let mut b = Block::<u32>::from_ptr(&src, 3).unwrap();
    assert_eq!(b.len(), 3);
    assert_eq!(*b.index(0), 1);
    assert_eq!(*b.index(1), 2);
    assert_eq!(*b.index(2), 3);

    src[0] = 100;
    assert_eq!(*b.index(0), 1);

    *b.index_mut(1) = 200;
    assert_eq!(src[1], 2);
}

#[test]
fn from_ptr_zero_len_is_empty() {
    let src = [1u32, 2, 3];
    let b = Block::<u32>::from_ptr(&src, 0).unwrap();
    assert_eq!(b.len(), 0);
    assert!(!b.has_data());
}

#[test]
fn as_ptr_exposes_the_contents() {
    let src = [7u32, 8, 9];
    let b = Block::<u32>::from_ptr(&src, 3).unwrap();
    let s = b.as_ptr();
    assert_eq!(s, &[7u32, 8, 9]);
}

#[test]
fn iteration_yields_every_element_in_order() {
    let src = [1u32, 2, 3];
    let b = Block::<u32>::from_ptr(&src, 3).unwrap();
    let mut it = b.iter();
    assert_eq!(it.next(), Some(1));
    assert_eq!(it.next(), Some(2));
    assert_eq!(it.next(), Some(3));
    assert_eq!(it.next(), None);
    assert_eq!(it.next(), None);

    let mut again = b.iter();
    assert_eq!(again.next(), Some(1));
    assert_eq!(*b.index(2), 3);
}

#[test]
fn iteration_over_empty_block_is_exhausted_at_once() {
    let b = Block::<u32>::new(0).unwrap();
    let mut it = b.iter();
    assert_eq!(it.next(), None);
}
