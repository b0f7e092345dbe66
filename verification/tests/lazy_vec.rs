use lazy_vec::LazyVec;
use std::sync::atomic::{AtomicUsize, Ordering};

#[test]
fn size() {
    assert_eq!(std::mem::size_of::<LazyVec<u64>>(), 16);
    assert_eq!(std::mem::size_of::<LazyVec<[u8; 48]>>(), 16);
}

#[test]
fn push_iter_swap_remove() {
    let mut v: LazyVec<u32> = LazyVec::new();
    assert!(v.is_empty());
    v.push(10);
    v.push(20);
    v.push(30);
    assert_eq!(v.len(), 3);
    assert_eq!(v.iter().copied().collect::<Vec<_>>(), vec![10, 20, 30]);
    let removed = v.swap_remove(0);
    assert_eq!(removed, 10);
    // After swap_remove(0) the last element has moved into the hole.
    assert_eq!(v.iter().copied().collect::<Vec<_>>(), vec![30, 20]);
    assert_eq!(v[0], 30);
    assert_eq!(v[1], 20);
}

#[test]
fn growth_pattern() {
    let mut v: LazyVec<u32> = LazyVec::new();
    for i in 0..32u32 {
        v.push(i);
    }
    assert_eq!(v.len(), 32);
    let collected: Vec<u32> = v.iter().copied().collect();
    assert_eq!(collected, (0..32).collect::<Vec<_>>());
}

#[test]
fn extend_and_reserve() {
    let mut v: LazyVec<u32> = LazyVec::new();
    v.extend(0..10);
    assert_eq!(v.len(), 10);
    v.reserve(5);
    assert!(v.capacity() >= 15);
}

#[test]
fn last_mut_and_index_mut() {
    let mut v: LazyVec<u32> = LazyVec::new();
    v.push(1);
    v.push(2);
    *v.last_mut().unwrap() = 99;
    assert_eq!(v[1], 99);
    v[0] = 7;
    assert_eq!(v[0], 7);
}

struct DropCounter<'a>(&'a AtomicUsize, u32);

impl<'a> Drop for DropCounter<'a> {
    fn drop(&mut self) {
        self.0.fetch_add(1, Ordering::SeqCst);
    }
}

#[test]
fn drop_runs_on_elements() {
    let count = AtomicUsize::new(0);
    {
        let mut v: LazyVec<DropCounter<'_>> = LazyVec::new();
        v.push(DropCounter(&count, 0));
        v.push(DropCounter(&count, 0));
        v.push(DropCounter(&count, 0));
    }
    assert_eq!(count.load(Ordering::SeqCst), 3);
}

#[test]
fn into_iter_drops_and_yields() {
    let count = AtomicUsize::new(0);
    let mut v: LazyVec<DropCounter<'_>> = LazyVec::new();
    v.push(DropCounter(&count, 1));
    v.push(DropCounter(&count, 2));
    v.push(DropCounter(&count, 3));

    let mut iter = v.into_iter();
    assert_eq!(iter.next().unwrap().1, 1);
    assert_eq!(iter.next().unwrap().1, 2);
    // Drop the iterator with one element left.
    drop(iter);
    // Two were handed out, and the one left was dropped with the iterator.
    assert_eq!(count.load(Ordering::SeqCst), 3);
}

#[test]
fn shrink_to_fit_releases_buffer() {
    let mut v: LazyVec<u32> = LazyVec::new();
    v.extend(0..10);
    assert!(v.capacity() >= 10);
    for _ in 0..10 {
        v.swap_remove(0);
    }
    assert!(v.is_empty());
    v.shrink_to_fit();
    assert_eq!(v.capacity(), 0);
}

struct Logged<'a>(&'a AtomicUsize, usize);

impl<'a> Drop for Logged<'a> {
    fn drop(&mut self) {
        let log = self.0.load(Ordering::SeqCst);
        self.0.store(log * 10 + self.1, Ordering::SeqCst);
    }
}

#[test]
fn elements_drop_in_insertion_order() {
    let log = AtomicUsize::new(0);
    let mut v: LazyVec<Logged<'_>> = LazyVec::new();
    for i in 1..5 {
        v.push(Logged(&log, i));
    }
    let mut iter = v.into_iter();
    drop(iter.next());
    drop(iter);
    assert_eq!(log.load(Ordering::SeqCst), 1234);

    let mut w: LazyVec<Logged<'_>> = LazyVec::new();
    w.push(Logged(&log, 5));
    w.push(Logged(&log, 6));
    drop(w);
    assert_eq!(log.load(Ordering::SeqCst), 123456);
}
