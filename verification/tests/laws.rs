use lazy_vec::{LazyVec, MAX_CAPACITY};
use std::sync::atomic::{AtomicUsize, Ordering};

fn filled(n: u32) -> LazyVec<u32> {
    let mut v: LazyVec<u32> = LazyVec::new();
    for i in 0..n {
        v.push(i);
    }
    v
}

fn contents(v: &LazyVec<u32>) -> Vec<u32> {
    v.iter().copied().collect()
}

/// Yields `left` items but announces `announced`.
struct Announcing {
    left: u32,
    announced: usize,
}

impl Iterator for Announcing {
    type Item = u32;

    fn next(&mut self) -> Option<u32> {
        if self.left == 0 {
            return None;
        }
        self.left -= 1;
        Some(self.left)
    }

    fn size_hint(&self) -> (usize, Option<usize>) {
        (self.announced, None)
    }
}

#[test]
fn new_and_default_allocate_nothing() {
    let v: LazyVec<u32> = LazyVec::new();
    assert_eq!(v.len(), 0);
    assert_eq!(v.capacity(), 0);
    let d: LazyVec<u32> = LazyVec::default();
    assert!(d.is_empty());
    assert_eq!(d.capacity(), 0);
    assert_eq!(d.as_slice().len(), 0);
}

#[test]
fn capacity_doubles_from_four_up_to_the_ceiling() {
    let expected = [
        (0, 0),
        (1, 4),
        (4, 4),
        (5, 8),
        (8, 8),
        (9, 16),
        (17, 32),
        (33, 64),
        (65, 128),
        (128, 128),
        (129, 255),
        (255, 255),
    ];
    for (n, cap) in expected {
        let v = filled(n);
        assert_eq!(v.len(), n as usize);
        assert_eq!(v.capacity(), cap);
        assert_eq!(contents(&v), (0..n).collect::<Vec<_>>());
    }
}

#[test]
fn the_ceiling_is_reached_and_not_passed() {
    let mut v: LazyVec<u8> = LazyVec::new();
    for _ in 0..255u32 {
        v.push(0);
    }
    assert_eq!(v.len(), MAX_CAPACITY);
    assert_eq!(v.capacity(), MAX_CAPACITY);
    assert!(!v.can_reserve(1));
    assert!(!v.extend(std::iter::once(1)));
    assert_eq!(v.len(), 255);
    assert_eq!(*v.last_mut().unwrap(), 0);
}

#[test]
fn growth_after_shrinking_doubles_what_is_left() {
    let mut v = filled(100);
    v.shrink_to_fit();
    assert_eq!(v.capacity(), 100);
    v.push(100);
    assert_eq!(v.capacity(), 200);
    for i in 101..201u32 {
        v.push(i);
    }
    assert_eq!(v.capacity(), 255);
    assert_eq!(contents(&v), (0..201).collect::<Vec<_>>());
}

#[test]
fn reserve_rounds_up_to_powers_of_two() {
    let expected = [(0, 0), (1, 4), (4, 4), (5, 8), (16, 16), (17, 32), (100, 128), (128, 128)];
    for (n, cap) in expected {
        let mut v: LazyVec<u32> = LazyVec::new();
        v.reserve(n);
        assert_eq!(v.capacity(), cap);
        v.reserve(n);
        assert_eq!(v.capacity(), cap);
    }
}

#[test]
fn reserve_counts_what_is_there() {
    let mut v = filled(3);
    v.reserve(1);
    assert_eq!(v.capacity(), 4);
    v.reserve(2);
    assert_eq!(v.capacity(), 8);
    assert_eq!(contents(&v), vec![0, 1, 2]);
    assert!(v.can_reserve(125));
    assert!(!v.can_reserve(126));
    assert!(!v.can_reserve(usize::MAX));
}

#[test]
fn reserve_uses_the_room_beyond_128_that_is_there() {
    let mut v = filled(129);
    assert!(v.can_reserve(126));
    v.reserve(126);
    assert_eq!(v.capacity(), 255);
    assert!(!v.can_reserve(127));
}

#[test]
fn pushes_after_reserve_do_not_allocate() {
    let mut v = filled(2);
    v.reserve(20);
    assert_eq!(v.capacity(), 32);
    for i in 0..20u32 {
        v.push(i);
        assert_eq!(v.capacity(), 32);
    }
}

#[test]
fn swap_remove_undoes_push() {
    let mut v = filled(4);
    v.push(9);
    assert_eq!(v.swap_remove(4), 9);
    assert_eq!(contents(&v), vec![0, 1, 2, 3]);
    assert_eq!(v.capacity(), 8);
}

#[test]
fn swap_remove_keeps_the_others() {
    let mut v = filled(5);
    assert_eq!(v.swap_remove(1), 1);
    assert_eq!(contents(&v), vec![0, 4, 2, 3]);
    assert_eq!(v.swap_remove(3), 3);
    assert_eq!(contents(&v), vec![0, 4, 2]);
    assert_eq!(v.capacity(), 8);
}

#[test]
fn shrink_to_fit_keeps_elements() {
    let mut v = filled(5);
    v.shrink_to_fit();
    assert_eq!(v.capacity(), 5);
    assert_eq!(contents(&v), vec![0, 1, 2, 3, 4]);
    v.shrink_to_fit();
    assert_eq!(v.capacity(), 5);
    let mut empty: LazyVec<u32> = LazyVec::new();
    empty.shrink_to_fit();
    assert_eq!(empty.capacity(), 0);
}

#[test]
fn extend_reserves_what_is_announced() {
    let mut v: LazyVec<u32> = LazyVec::new();
    assert!(v.extend(0..10));
    assert_eq!(v.capacity(), 16);
    assert_eq!(contents(&v), (0..10).collect::<Vec<_>>());

    let mut w: LazyVec<u32> = LazyVec::new();
    assert!(w.extend(Announcing { left: 3, announced: 60 }));
    assert_eq!(w.capacity(), 64);
    assert_eq!(contents(&w), vec![2, 1, 0]);
}

#[test]
fn extend_without_announcement_grows_as_pushes_do() {
    let mut v: LazyVec<u32> = LazyVec::new();
    assert!(v.extend(Announcing { left: 5, announced: 0 }));
    assert_eq!(v.capacity(), 8);
    assert_eq!(contents(&v), vec![4, 3, 2, 1, 0]);
    assert!(v.extend(std::iter::empty()));
    assert_eq!(v.len(), 5);
}

#[test]
fn extend_refuses_announced_items_without_room() {
    let mut v = filled(3);
    assert!(!v.extend(Announcing { left: 2, announced: 126 }));
    assert_eq!(contents(&v), vec![0, 1, 2]);
    assert_eq!(v.capacity(), 4);
    assert!(!v.extend(Announcing { left: 2, announced: usize::MAX }));
    assert_eq!(contents(&v), vec![0, 1, 2]);
    assert!(v.extend(Announcing { left: 2, announced: 125 }));
    assert_eq!(contents(&v), vec![0, 1, 2, 1, 0]);
    assert_eq!(v.capacity(), 128);
}

#[test]
fn extend_stops_at_the_ceiling() {
    let mut v = filled(250);
    assert!(!v.extend(Announcing { left: 10, announced: 0 }));
    assert_eq!(v.len(), 255);
    assert_eq!(v.capacity(), 255);
    assert_eq!(v.as_slice()[249..], [249, 9, 8, 7, 6, 5]);
}

#[test]
fn extend_announced_takes_the_bound_as_given() {
    let mut v: LazyVec<u32> = LazyVec::new();
    assert!(v.extend_announced(0..3, 20));
    assert_eq!(v.capacity(), 32);
    assert!(!v.extend_announced(0..3, 126));
    assert_eq!(contents(&v), vec![0, 1, 2]);
}

#[test]
fn collecting_round_trips() {
    let v = filled(128);
    let w = LazyVec::from_iter(v.into_iter()).unwrap();
    assert_eq!(contents(&w), (0..128).collect::<Vec<_>>());
    assert_eq!(w.capacity(), 128);
    assert!(LazyVec::from_iter(w.into_iter().chain(128..130)).is_none());
    assert!(LazyVec::from_iter(Announcing { left: 255, announced: 0 }).is_some());
    assert!(LazyVec::from_iter(Announcing { left: 256, announced: 0 }).is_none());
    assert!(LazyVec::from_iter_announced(0..3u32, 129).is_none());
    assert_eq!(LazyVec::from_iter_announced(0..3u32, 9).unwrap().capacity(), 16);
}

#[test]
fn into_iter_yields_in_order_and_counts_down() {
    let mut iter = filled(3).into_iter();
    assert_eq!(iter.size_hint(), (3, Some(3)));
    assert_eq!(iter.next(), Some(0));
    assert_eq!(iter.size_hint(), (2, Some(2)));
    assert_eq!(iter.next(), Some(1));
    assert_eq!(iter.next(), Some(2));
    assert_eq!(iter.size_hint(), (0, Some(0)));
    assert_eq!(iter.next(), None);
    assert_eq!(iter.next(), None);
    let none: LazyVec<u32> = LazyVec::new();
    assert_eq!(none.into_iter().next(), None);
}

#[test]
fn iteration_by_reference() {
    let mut v = filled(4);
    for x in v.iter_mut() {
        *x += 10;
    }
    assert_eq!(contents(&v), vec![10, 11, 12, 13]);
    for x in &mut v {
        *x *= 2;
    }
    let mut seen: Vec<u32> = Vec::new();
    for x in &v {
        seen.push(*x);
    }
    assert_eq!(seen, vec![20, 22, 24, 26]);
    *v.iter_mut().next().unwrap() = 1;
    assert_eq!(contents(&v), vec![1, 22, 24, 26]);
    assert_eq!(v.capacity(), 4);
    let mut none: LazyVec<u32> = LazyVec::new();
    assert!(none.iter_mut().next().is_none());
}

#[test]
fn slices_reach_the_elements() {
    let mut v = filled(3);
    assert_eq!(*v.index(2), 2);
    *v.index_mut(2) = 5;
    v.as_mut_slice()[0] = 8;
    v.reverse();
    assert_eq!(*v, [5, 1, 8]);
    let mut none: LazyVec<u32> = LazyVec::new();
    assert!(none.last_mut().is_none());
    assert_eq!(none.as_mut_slice().len(), 0);
}

#[test]
fn zero_sized_elements_are_counted() {
    let mut v: LazyVec<()> = LazyVec::new();
    for _ in 0..5 {
        v.push(());
    }
    assert_eq!(v.len(), 5);
    assert_eq!(v.capacity(), 8);
    v.shrink_to_fit();
    assert_eq!(v.capacity(), 5);
    assert_eq!(v.into_iter().count(), 5);
}

struct Counted<'a>(&'a AtomicUsize);

impl<'a> Drop for Counted<'a> {
    fn drop(&mut self) {
        self.0.fetch_add(1, Ordering::SeqCst);
    }
}

#[test]
fn moving_elements_drops_none() {
    let count = AtomicUsize::new(0);
    let mut v: LazyVec<Counted<'_>> = LazyVec::new();
    for _ in 0..9 {
        v.push(Counted(&count));
    }
    v.reserve(30);
    v.shrink_to_fit();
    assert_eq!(count.load(Ordering::SeqCst), 0);
    drop(v.swap_remove(2));
    assert_eq!(count.load(Ordering::SeqCst), 1);
    drop(v);
    assert_eq!(count.load(Ordering::SeqCst), 9);
}

#[test]
fn a_refused_announcement_takes_no_item() {
    let mut v = filled(130);
    let mut source = Announcing { left: 2, announced: 126 };
    assert!(!v.extend(&mut source));
    assert_eq!(source.left, 2);
    assert_eq!(contents(&v), (0..130).collect::<Vec<_>>());
    assert_eq!(v.capacity(), 255);
    source.announced = 125;
    assert!(v.extend(&mut source));
    assert_eq!(source.left, 0);
    assert_eq!(v.len(), 132);

    let mut source = Announcing { left: 2, announced: 129 };
    assert!(LazyVec::from_iter(&mut source).is_none());
    assert_eq!(source.left, 2);
}

#[test]
fn capacity_follows_powers_of_two_in_any_order() {
    let mut v: LazyVec<u32> = LazyVec::new();
    let mut seen: Vec<usize> = Vec::new();
    v.extend(0..5);
    seen.push(v.capacity());
    v.swap_remove(0);
    v.reserve(9);
    seen.push(v.capacity());
    for i in 0..20 {
        v.push(i);
    }
    seen.push(v.capacity());
    v.extend(0..104);
    seen.push(v.capacity());
    v.push(0);
    seen.push(v.capacity());
    assert_eq!(seen, vec![8, 16, 32, 128, 255]);
}

#[test]
fn pushes_within_capacity_do_not_move_the_buffer() {
    for n in [1usize, 4, 20, 100, 128] {
        let mut v: LazyVec<u64> = LazyVec::new();
        v.reserve(n);
        v.push(0);
        let start = v.as_slice().as_ptr();
        for i in 1..v.capacity() {
            v.push(i as u64);
            assert_eq!(v.as_slice().as_ptr(), start);
        }
        assert_eq!(v.len(), v.capacity());
    }
}

#[test]
fn an_iterator_dropped_early_leaves_the_rest() {
    let mut v = filled(4);
    let mut iter = v.iter_mut();
    *iter.next().unwrap() = 10;
    *iter.next().unwrap() = 11;
    drop(iter);
    assert_eq!(contents(&v), vec![10, 11, 2, 3]);
    let mut iter = (&mut v).into_iter();
    *iter.next().unwrap() = 20;
    drop(iter);
    assert_eq!(contents(&v), vec![20, 11, 2, 3]);
}
