//! What a container is, mathematically: its elements and its capacity.
use vstd::prelude::*;

use crate::capacity::{MAX_CAPACITY, MAX_POWER};

verus! {

/// The elements of a container in insertion order, and its capacity: the number of elements that it
/// takes before it asks for more room.
///
/// The capacity is the room that was requested for the elements. Nothing that is proved ties it to
/// what the allocator gave for the request.
#[verifier::ext_equal]
pub struct LazyVecView<T> {
    pub elems: Seq<T>,
    pub capacity: nat,
}

impl<T> LazyVecView<T> {
    /// No elements, and no room asked for.
    pub open spec fn empty() -> Self {
        LazyVecView { elems: Seq::empty(), capacity: 0 }
    }

    /// The elements fit the capacity, and the capacity fits a `u8`.
    pub open spec fn valid(self) -> bool {
        self.elems.len() <= self.capacity <= MAX_CAPACITY
    }

    /// How many more elements can ever be added.
    pub open spec fn headroom(self) -> int {
        MAX_CAPACITY - self.elems.len()
    }

    /// One more element at the end. A full container grows first.
    pub open spec fn push(self, value: T) -> Self {
        LazyVecView {
            elems: self.elems.push(value),
            capacity: if self.elems.len() == self.capacity {
                crate::capacity::grown_capacity(self.capacity)
            } else {
                self.capacity
            },
        }
    }

    /// The elements of `items`, pushed one after the other.
    pub open spec fn push_all(self, items: Seq<T>) -> Self
        decreases items.len(),
    {
        if items.len() == 0 {
            self
        } else {
            self.push(items[0]).push_all(items.drop_first())
        }
    }

    /// The element at `i` leaves, and the last element takes its place.
    pub open spec fn swap_remove(self, i: int) -> Self {
        LazyVecView {
            elems: self.elems.update(i, self.elems.last()).drop_last(),
            capacity: self.capacity,
        }
    }

    /// The element at `i` replaced by `value`.
    pub open spec fn update(self, i: int, value: T) -> Self {
        LazyVecView { elems: self.elems.update(i, value), capacity: self.capacity }
    }

    /// Room for `additional` more elements is there, or can be allocated: the greatest power of
    /// two that a capacity can be is enough.
    pub open spec fn can_reserve(self, additional: nat) -> bool {
        let needed = self.elems.len() + additional;
        needed <= self.capacity || needed <= MAX_POWER
    }

    /// The same elements with room for `additional` more.
    pub open spec fn reserve(self, additional: nat) -> Self {
        let needed = self.elems.len() + additional;
        LazyVecView {
            elems: self.elems,
            capacity: if needed <= self.capacity {
                self.capacity
            } else {
                crate::capacity::reserved_capacity(needed)
            },
        }
    }

    /// The same elements with no room to spare.
    pub open spec fn shrink_to_fit(self) -> Self {
        LazyVecView { elems: self.elems, capacity: self.elems.len() }
    }

    /// The elements of `items` pushed one after the other, once room for `lower` of them has been
    /// reserved.
    pub open spec fn extend(self, items: Seq<T>, lower: nat) -> Self {
        self.reserve(lower).push_all(items)
    }

    /// The first of `items`, as many as can ever be added.
    pub open spec fn fitting(self, items: Seq<T>) -> Seq<T> {
        if items.len() <= self.headroom() {
            items
        } else {
            items.take(self.headroom())
        }
    }

    /// `after` and `complete` are what comes of adding `items` to `self`, of which `lower` were
    /// announced.
    ///
    /// Where there can be no room for the announced items, nothing is added. Otherwise as many
    /// items are added as the container can ever hold, in order. `complete` tells whether all of
    /// them were added.
    pub open spec fn extends_to(
        self,
        items: Seq<T>,
        lower: nat,
        after: Self,
        complete: bool,
    ) -> bool {
        if !self.can_reserve(lower) {
            after == self && !complete
        } else {
            after == self.extend(self.fitting(items), lower) && (complete <==> items.len()
                <= self.headroom())
        }
    }

    /// `res` is what comes of collecting `items`, of which `lower` were announced, into a new
    /// container: nothing where they, or the announced ones, cannot fit.
    pub open spec fn collects_to(items: Seq<T>, lower: nat, res: Option<Self>) -> bool {
        if Self::empty().can_reserve(lower) && items.len() <= MAX_CAPACITY {
            res == Some(Self::empty().extend(items, lower))
        } else {
            res is None
        }
    }

    /// Pushing one more item comes after pushing those before it.
    pub proof fn lemma_push_all_push(self, items: Seq<T>, item: T)
        ensures
            self.push_all(items.push(item)) == self.push_all(items).push(item),
        decreases items.len(),
    {
        if items.len() > 0 {
            self.push(items[0]).lemma_push_all_push(items.drop_first(), item);
            assert(items.push(item).drop_first() =~= items.drop_first().push(item));
        } else {
            assert(items.push(item).drop_first() =~= items);
            reveal_with_fuel(LazyVecView::push_all, 2);
        }
    }
}

} // verus!
