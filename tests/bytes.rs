use std::ops::Bound;

use alloc_pool::bytes::{BytesMut, BytesPool};

#[test]
fn freeze_00() {
    let bytes = BytesMut::new_detached(vec![0, 1, 2, 3, 4])
        .freeze();
    assert_eq!(&*bytes, &[0, 1, 2, 3, 4]);
}

#[test]
fn freeze_range_00() {
    let bytes = BytesMut::new_detached(vec![0, 1, 2, 3, 4])
        .freeze_range(.. 3);
    assert_eq!(&*bytes, &[0, 1, 2]);
}

#[test]
fn freeze_range_01() {
    let bytes = BytesMut::new_detached(vec![0, 1, 2, 3, 4])
        .freeze_range(..= 3);
    assert_eq!(&*bytes, &[0, 1, 2, 3]);
}

#[test]
fn freeze_range_02() {
    let bytes = BytesMut::new_detached(vec![0, 1, 2, 3, 4])
        .freeze_range(2 ..);
    assert_eq!(&*bytes, &[2, 3, 4]);
}

#[test]
fn freeze_range_03() {
    let bytes = BytesMut::new_detached(vec![0, 1, 2, 3, 4])
        .freeze_range(2 .. 4);
    assert_eq!(&*bytes, &[2, 3]);
}

#[test]
fn freeze_range_full_and_empty_windows() {
    let all = BytesMut::new_detached(vec![0, 1, 2, 3, 4]).freeze_range(..);
    assert_eq!(&*all, &[0, 1, 2, 3, 4]);
    let inclusive = BytesMut::new_detached(vec![0, 1, 2, 3, 4]).freeze_range(1 ..= 4);
    assert_eq!(&*inclusive, &[1, 2, 3, 4]);
    let at_end = BytesMut::new_detached(vec![0, 1, 2, 3, 4]).freeze_range(5 ..);
    assert_eq!(at_end.len(), 0);
    let empty = BytesMut::new_detached(vec![0, 1, 2, 3, 4]).freeze_range(3 .. 3);
    assert_eq!(empty.as_slice(), &[] as &[u8]);
}

#[test]
fn freeze_of_empty_buffer() {
    let bytes = BytesMut::new_detached(Vec::new()).freeze();
    assert_eq!(bytes.len(), 0);
    let ranged = BytesMut::new_detached(Vec::new()).freeze_range(.. 0);
    assert_eq!(ranged.len(), 0);
}

#[test]
fn equal_content_from_different_buffers_is_equal() {
    let a = BytesMut::new_detached(vec![7, 8, 9]).freeze();
    let b = BytesMut::new_detached(vec![1, 7, 8, 9, 2]).freeze_range(1 .. 4);
    assert!(a == b);
    let c = BytesMut::new_detached(vec![7, 8, 10]).freeze();
    assert!(a != c);
    let d = BytesMut::new_detached(vec![7, 8]).freeze();
    assert!(a != d);
}

#[test]
fn clones_alias_the_same_window() {
    let a = BytesMut::new_detached(vec![3, 4, 5, 6]).freeze_range(1 ..);
    let b = a.clone();
    assert_eq!(&*b, &[4, 5, 6]);
    assert!(a == b);
    assert_eq!(a.as_slice().as_ptr(), b.as_slice().as_ptr());
}

#[test]
fn bytes_pool_lends_empty_buffers() {
    let pool = BytesPool::new();
    let mut first = pool.lend();
    assert_eq!(first.get().len(), 0);
    first.get_mut().extend_from_slice(&[1, 2, 3, 4, 5, 6, 7, 8]);
    let frozen = first.freeze();
    assert_eq!(&*frozen, &[1, 2, 3, 4, 5, 6, 7, 8]);
    drop(frozen);

    let second = pool.lend();
    assert_eq!(second.get().len(), 0);
    assert!(second.get().capacity() >= 8);
}

#[test]
fn bytes_mut_equality_is_by_content() {
    let a = BytesMut::new_detached(vec![1, 2]);
    let b = BytesMut::new_detached(vec![1, 2]);
    let c = BytesMut::new_detached(vec![2, 1]);
    assert!(a == b);
    assert!(a != c);
}

fn assert_send<V: Send>(_: &V) {}

fn assert_sync<V: Sync>(_: &V) {}

#[test]
fn bytes_can_be_handed_to_another_thread() {
    let pool = BytesPool::new();
    let mut bytes = pool.lend();
    bytes.get_mut().push(42);
    assert_send(&bytes);
    let frozen = bytes.freeze();
    assert_send(&frozen);
    assert_sync(&frozen);
    assert_send(&pool);
    assert_sync(&pool);
    assert_eq!(&*frozen, &[42]);
}

#[test]
fn freeze_range_takes_a_pair_of_bounds() {
    let a = BytesMut::new_detached(vec![0, 1, 2, 3, 4])
        .freeze_range((Bound::Included(1), Bound::Excluded(3)));
    assert_eq!(&*a, &[1, 2]);
    let b = BytesMut::new_detached(vec![0, 1, 2, 3, 4])
        .freeze_range((Bound::Unbounded, Bound::Included(4)));
    assert_eq!(&*b, &[0, 1, 2, 3, 4]);
    let c = BytesMut::new_detached(vec![0, 1, 2, 3, 4])
        .freeze_range((Bound::<usize>::Unbounded, Bound::<usize>::Unbounded));
    assert_eq!(c.len(), 5);
}
