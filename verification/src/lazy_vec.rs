//! The container.
use vstd::prelude::*;
use vstd::std_specs::iter::IteratorSpec;

use crate::buffer::Buffer;
use crate::capacity::{round_up_to_power_of_two, MAX_CAPACITY, MAX_POWER, MIN_ALLOCATION};
use crate::into_iter::IntoIter;
use crate::slice_iter::{ask_announced, slice_iter_mut};
use crate::view::LazyVecView;

verus! {

/// A compact `Vec`-shaped container of at most [`MAX_CAPACITY`] elements.
///
/// The handle is a thin pointer and two bytes. The buffer that the pointer leads to carries its
/// own header on the heap, and is not there as long as the capacity is zero. A container with
/// capacity has that header whatever the size of an element.
pub struct LazyVec<T> {
    /// The elements, in a buffer that was made with `Vec::with_capacity(cap)`. `None` when
    /// `cap == 0`.
    ///
    /// `cap` is the room that was requested for this buffer. Nothing that is proved ties it to what
    /// `Vec` and the allocator gave for the request.
    buf: Option<Box<Buffer<T>>>,
    len: u8,
    cap: u8,
}

impl<T> View for LazyVec<T> {
    type V = LazyVecView<T>;

    closed spec fn view(&self) -> LazyVecView<T> {
        LazyVecView {
            elems: match self.buf {
                Some(buf) => buf@,
                None => Seq::empty(),
            },
            capacity: self.cap as nat,
        }
    }
}

impl<T> Default for LazyVec<T> {
    /// An empty container.
    fn default() -> (res: Self)
        ensures
            res.wf(),
            res@ == LazyVecView::<T>::empty(),
    {
        Self::new()
    }
}

impl<T> LazyVec<T> {
    /// There is a buffer exactly if there is a capacity, it was requested with room for just that
    /// capacity, and `len` counts the elements.
    pub closed spec fn rep_ok(&self) -> bool {
        &&& self.buf is None <==> self.cap == 0
        &&& self.buf matches Some(buf) ==> buf.wf() && buf.room() == self.cap
        &&& self.len == self@.elems.len()
    }

    /// The request that the buffer came from: the room that was asked of `Vec::with_capacity`, and
    /// the `Vec` that it returned. `None` where there is no buffer.
    pub closed spec fn allocation(&self) -> Option<(usize, Vec<T>)> {
        match self.buf {
            Some(buf) => Some((buf.room(), buf.made())),
            None => None,
        }
    }

    /// The buffer was requested with room for exactly the capacity.
    pub proof fn lemma_allocation(&self)
        requires
            self.wf(),
        ensures
            self.allocation() is None <==> self@.capacity == 0,
            self.allocation() matches Some((room, made)) ==> {
                &&& room == self@.capacity
                &&& call_ensures(Vec::<T>::with_capacity, (room,), made)
            },
    {
    }

    /// Holds of every container that the operations make.
    pub open spec fn wf(&self) -> bool {
        self.rep_ok() && self@.valid()
    }

    /// An empty container. Nothing is allocated.
    pub fn new() -> (res: Self)
        ensures
            res.wf(),
            res@ == LazyVecView::<T>::empty(),
    {
        LazyVec { buf: None, len: 0, cap: 0 }
    }

    /// The number of elements.
    #[inline]
    pub fn len(&self) -> (n: usize)
        requires
            self.wf(),
        ensures
            n == self@.elems.len(),
    {
        self.len as usize
    }

    /// Whether there are no elements.
    #[inline]
    pub fn is_empty(&self) -> (b: bool)
        requires
            self.wf(),
        ensures
            b <==> self@.elems.len() == 0,
    {
        self.len == 0
    }

    /// The number of elements that the container takes before it asks for more room.
    ///
    /// This is the room that the buffer was requested with. What the allocator gave for the request
    /// is not part of the contract.
    #[inline]
    pub fn capacity(&self) -> (n: usize)
        ensures
            n == self@.capacity,
    {
        self.cap as usize
    }

    /// Returns an iterator over the elements in insertion order.
    #[inline]
    pub fn iter(&self) -> (it: core::slice::Iter<'_, T>)
        ensures
            it.remaining() == self@.elems.as_ref(),
            it.decrease() is Some,
            it.initial_value_relation(&it),
    {
        self.as_slice().iter()
    }

    /// Returns a mutable iterator over the elements in insertion order.
    ///
    /// What the references that it yields hold in the end are the elements then. Once the iterator is
    /// done with, the elements whose references it has not yielded stay as they are.
    #[inline]
    pub fn iter_mut(&mut self) -> (it: core::slice::IterMut<'_, T>)
        ensures
            it.obeys_prophetic_iter_laws(),
            it.remaining().len() == old(self)@.elems.len(),
            forall|i: int|
                0 <= i < old(self)@.elems.len() ==> *(#[trigger] it.remaining()[i])
                    == old(self)@.elems[i],
            final(self)@.elems.len() == old(self)@.elems.len(),
            forall|i: int|
                0 <= i < old(self)@.elems.len() ==> #[trigger] final(self)@.elems[i]
                    == *final(it.remaining()[i]),
            forall|rest: core::slice::IterMut<'_, T>, i: int, j: int|
                #![trigger has_resolved(rest), rest.remaining()[j], it.remaining()[i]]
                has_resolved(rest) && 0 <= j < rest.remaining().len() && 0 <= i
                    < old(self)@.elems.len() && rest.remaining()[j] == it.remaining()[i]
                    ==> has_resolved(it.remaining()[i]),
            final(self)@.capacity == old(self)@.capacity,
            final(self).allocation() == old(self).allocation(),
            old(self).wf() ==> final(self).wf(),
    {
        slice_iter_mut(self.as_mut_slice())
    }

    /// The elements as a slice.
    #[inline]
    pub fn as_slice(&self) -> (s: &[T])
        ensures
            s@ == self@.elems,
    {
        match &self.buf {
            Some(buf) => buf.as_slice(),
            None => &[],
        }
    }

    /// The elements as a mutable slice. What it holds in the end are the elements then. As long as
    /// it keeps its length, as every slice does, the container stays well-formed.
    #[inline]
    pub fn as_mut_slice(&mut self) -> (s: &mut [T])
        ensures
            s@ == old(self)@.elems,
            final(self)@ == (LazyVecView {
                elems: final(s)@,
                capacity: old(self)@.capacity,
            }),
            final(self).allocation() == old(self).allocation(),
            old(self).wf() && final(s)@.len() == s@.len() ==> final(self).wf(),
    {
        match &mut self.buf {
            Some(buf) => buf.as_mut_slice(),
            None => &mut [],
        }
    }

    /// Appends `value`. A full container grows first: to 4, and then to twice its capacity, up to
    /// the ceiling.
    pub fn push(&mut self, value: T)
        requires
            old(self).wf(),
            old(self)@.elems.len() < MAX_CAPACITY,
        ensures
            final(self).wf(),
            final(self)@ == old(self)@.push(value),
            final(self)@.capacity == old(self)@.capacity ==> final(self).allocation() == old(
                self,
            ).allocation(),
    {
        if self.len == self.cap {
            self.grow_by_one();
        }
        if let Some(buf) = &mut self.buf {
            buf.push(value);
        }
        self.len = self.len + 1;
    }

    /// Removes and returns the element at `idx`, and moves the last element into its place.
    pub fn swap_remove(&mut self, idx: usize) -> (removed: T)
        requires
            old(self).wf(),
            idx < old(self)@.elems.len(),
        ensures
            final(self).wf(),
            removed == old(self)@.elems[idx as int],
            final(self)@ == old(self)@.swap_remove(idx as int),
            final(self).allocation() == old(self).allocation(),
    {
        let removed = self.buf.as_mut().unwrap().swap_remove(idx);
        self.len = self.len - 1;
        removed
    }

    /// Returns a mutable reference to the last element if any.
    pub fn last_mut(&mut self) -> (last: Option<&mut T>)
        ensures
            last is Some <==> old(self)@.elems.len() > 0,
            last is Some ==> *last.unwrap() == old(self)@.elems.last(),
            last is Some ==> final(self)@ == old(self)@.update(
                old(self)@.elems.len() - 1,
                *final(last.unwrap()),
            ),
            last is None ==> final(self)@ == old(self)@,
            final(self).allocation() == old(self).allocation(),
            old(self).wf() ==> final(self).wf(),
    {
        self.as_mut_slice().last_mut()
    }

    /// Returns a reference to the element at `idx`.
    #[inline]
    pub fn index(&self, idx: usize) -> (elem: &T)
        requires
            idx < self@.elems.len(),
        ensures
            *elem == self@.elems[idx as int],
    {
        &self.as_slice()[idx]
    }

    /// Returns a mutable reference to the element at `idx`.
    #[inline]
    pub fn index_mut(&mut self, idx: usize) -> (elem: &mut T)
        requires
            idx < old(self)@.elems.len(),
        ensures
            *elem == old(self)@.elems[idx as int],
            final(self)@ == old(self)@.update(idx as int, *final(elem)),
            final(self).allocation() == old(self).allocation(),
            old(self).wf() ==> final(self).wf(),
    {
        &mut self.as_mut_slice()[idx]
    }

    /// Whether `additional` more elements can be reserved: they fit the capacity, or the power of
    /// two that all elements together are rounded up to is at most [`MAX_CAPACITY`].
    pub fn can_reserve(&self, additional: usize) -> (b: bool)
        requires
            self.wf(),
        ensures
            b <==> self@.can_reserve(additional as nat),
    {
        let len = self.len as usize;
        additional <= self.cap as usize - len || (len <= MAX_POWER && additional <= MAX_POWER - len)
    }

    /// Reserves capacity for at least `additional` more elements. Does nothing if there is room
    /// for them already. Otherwise the capacity becomes the least power of two that all of them
    /// fit, and at least 4.
    pub fn reserve(&mut self, additional: usize)
        requires
            old(self).wf(),
            old(self)@.can_reserve(additional as nat),
        ensures
            final(self).wf(),
            final(self)@ == old(self)@.reserve(additional as nat),
            final(self)@.capacity == old(self)@.capacity ==> final(self).allocation() == old(
                self,
            ).allocation(),
    {
        proof {
            crate::capacity::lemma_reserved_capacity_fits(
                (self@.elems.len() + additional) as nat,
            );
        }
        let needed: usize = self.len() + additional;
        if needed <= self.cap as usize {
            return;
        }
        let rounded = round_up_to_power_of_two(needed);
        let new_cap: usize = if rounded < MIN_ALLOCATION {
            MIN_ALLOCATION
        } else {
            rounded
        };
        self.realloc_to(new_cap);
    }

    /// Grows the buffer by at least one slot. The first allocation jumps to 4 to amortize the
    /// initial pushes; later ones double the capacity up to the ceiling.
    #[inline(never)]
    fn grow_by_one(&mut self)
        requires
            old(self).wf(),
            old(self)@.capacity < MAX_CAPACITY,
        ensures
            final(self).wf(),
            final(self)@ == (LazyVecView {
                elems: old(self)@.elems,
                capacity: crate::capacity::grown_capacity(old(self)@.capacity),
            }),
            final(self)@.elems.len() < final(self)@.capacity,
    {
        let cap = self.cap as usize;
        let new_cap: usize = if cap == 0 {
            MIN_ALLOCATION
        } else if cap * 2 <= MAX_CAPACITY {
            cap * 2
        } else {
            MAX_CAPACITY
        };
        self.realloc_to(new_cap);
    }

    /// Moves the elements to a buffer that is made with room for `new_cap` of them.
    ///
    /// That such a buffer is requested is proved. What the allocator gives for the request is not
    /// part of the contract.
    fn realloc_to(&mut self, new_cap: usize)
        requires
            old(self).wf(),
            0 < new_cap <= MAX_CAPACITY,
            old(self)@.elems.len() <= new_cap,
        ensures
            final(self).wf(),
            final(self)@ == (LazyVecView {
                elems: old(self)@.elems,
                capacity: new_cap as nat,
            }),
            final(self)@.capacity == old(self)@.capacity ==> final(self).allocation() == old(
                self,
            ).allocation(),
    {
        if new_cap == self.cap as usize {
            return;
        }
        let mut new_buf: Buffer<T> = Buffer::with_room(new_cap);
        if let Some(buf) = &mut self.buf {
            new_buf.append(buf);
        }
        self.deallocate_old();
        self.buf = Some(Box::new(new_buf));
        self.cap = new_cap as u8;
    }

    /// Frees the buffer, from which all elements have been moved out.
    fn deallocate_old(&mut self)
        requires
            old(self)@.elems.len() == 0,
        ensures
            final(self).buf is None,
            final(self).len == old(self).len,
            final(self).cap == old(self).cap,
    {
        self.buf = None;
    }

    /// Shrinks the buffer to fit the elements, and frees it if there are none.
    ///
    /// That there is no buffer at capacity zero is proved, and that the elements otherwise are in a
    /// buffer that was requested with room for exactly their number. What the allocator gives for
    /// the request is not part of the contract.
    pub fn shrink_to_fit(&mut self)
        requires
            old(self).wf(),
        ensures
            final(self).wf(),
            final(self)@ == old(self)@.shrink_to_fit(),
            final(self)@.capacity == old(self)@.capacity ==> final(self).allocation() == old(
                self,
            ).allocation(),
    {
        if self.len == self.cap {
            return;
        }
        if self.len == 0 {
            self.deallocate_old();
            self.cap = 0;
            return;
        }
        self.realloc_to(self.len as usize);
    }

    /// Appends the items of `iter`, in order, and tells whether all of them were appended.
    ///
    /// The room that the iterator announces is reserved first. Where it cannot be, nothing is
    /// appended; where there are more items than the container can ever hold, the first ones are.
    /// So where the announced room can be had and the items fit, all of them are appended.
    pub fn extend<I: Iterator<Item = T>>(&mut self, iter: I) -> (complete: bool)
        requires
            old(self).wf(),
        ensures
            final(self).wf(),
            old(self)@.elems.is_prefix_of(final(self)@.elems),
            final(self)@.capacity == old(self)@.capacity ==> final(self).allocation() == old(
                self,
            ).allocation(),
            exists|lower: usize, yielded: Seq<T>|
                #![trigger crate::slice_iter::announces(iter, lower), old(self)@.extends_to(
                    yielded,
                    lower as nat,
                    final(self)@,
                    complete,
                )]
                crate::slice_iter::announces(iter, lower) && old(self)@.extends_to(
                    yielded,
                    lower as nat,
                    final(self)@,
                    complete,
                ),
            (forall|lower: usize| #[trigger]
                crate::slice_iter::announces(iter, lower) ==> !old(self)@.can_reserve(lower as nat))
                ==> final(self)@ == old(self)@ && !complete,
            iter.obeys_prophetic_iter_laws() ==> exists|lower: usize| #[trigger]
                crate::slice_iter::announces(iter, lower) && old(self)@.extends_to(
                    iter.remaining(),
                    lower as nat,
                    final(self)@,
                    complete,
                ),
            iter.obeys_prophetic_iter_laws() && iter.remaining().len() <= old(self)@.headroom() && (
            forall|lower: usize| #[trigger]
                crate::slice_iter::announces(iter, lower) ==> old(self)@.can_reserve(lower as nat))
                ==> complete && final(self)@.elems == old(self)@.elems + iter.remaining(),
    {
        let lower = ask_announced(&iter);
        let complete = self.extend_announced(iter, lower);
        proof {
            if iter.obeys_prophetic_iter_laws() {
                crate::laws::law_extend_appends(
                    old(self)@,
                    iter.remaining(),
                    lower as nat,
                    self@,
                    complete,
                );
            }
        }
        complete
    }

    /// Appends the items of `iter`, in order, and tells whether all of them were appended. Room
    /// for `lower` items is reserved first, as [`LazyVec::extend`] does for as many items as the
    /// iterator announces.
    pub fn extend_announced<I: Iterator<Item = T>>(&mut self, iter: I, lower: usize) -> (complete:
        bool)
        requires
            old(self).wf(),
        ensures
            final(self).wf(),
            old(self)@.elems.is_prefix_of(final(self)@.elems),
            final(self)@.capacity == old(self)@.capacity ==> final(self).allocation() == old(
                self,
            ).allocation(),
            !old(self)@.can_reserve(lower as nat) ==> final(self)@ == old(self)@ && !complete,
            exists|yielded: Seq<T>| #[trigger]
                old(self)@.extends_to(yielded, lower as nat, final(self)@, complete),
            iter.obeys_prophetic_iter_laws() ==> old(self)@.extends_to(
                iter.remaining(),
                lower as nat,
                final(self)@,
                complete,
            ),
    {
        if !self.can_reserve(lower) {
            assert(old(self)@.extends_to(Seq::<T>::empty(), lower as nat, self@, false));
            return false;
        }
        if lower > 0 {
            self.reserve(lower);
        }
        let ghost reserved = self@;
        proof {
            crate::laws::law_reserve(old(self)@, lower as nat);
        }
        let ghost mut pushed = Seq::<T>::empty();
        let mut source = iter;
        loop
            invariant
                self.wf(),
                source.obeys_prophetic_iter_laws() == iter.obeys_prophetic_iter_laws(),
                old(self)@.can_reserve(lower as nat),
                reserved == old(self)@.reserve(lower as nat),
                old(self)@.elems.is_prefix_of(self@.elems),
                old(self)@.capacity <= self@.capacity,
                self@.capacity == old(self)@.capacity ==> self.allocation() == old(
                    self,
                ).allocation(),
                self@ == reserved.push_all(pushed),
                self@.elems.len() == reserved.elems.len() + pushed.len(),
                iter.obeys_prophetic_iter_laws() ==> iter.remaining() == pushed
                    + source.remaining(),
            decreases self@.headroom(),
        {
            match source.next() {
                Some(item) => {
                    if self.len() == MAX_CAPACITY {
                        proof {
                            let yielded = pushed.push(item);
                            assert(old(self)@.fitting(yielded) =~= pushed);
                            assert(old(self)@.extends_to(yielded, lower as nat, self@, false));
                            if iter.obeys_prophetic_iter_laws() {
                                assert(old(self)@.fitting(iter.remaining()) =~= pushed);
                            }
                        }
                        return false;
                    }
                    self.push(item);
                    proof {
                        reserved.lemma_push_all_push(pushed, item);
                        pushed = pushed.push(item);
                    }
                },
                None => {
                    proof {
                        assert(old(self)@.extends_to(pushed, lower as nat, self@, true));
                        if iter.obeys_prophetic_iter_laws() {
                            assert(iter.remaining() =~= pushed);
                        }
                    }
                    return true;
                },
            }
        }
    }

    /// A container of the items of `iter`, in order, or `None` if there cannot be room for what
    /// the iterator announces or yields.
    pub fn from_iter<I: Iterator<Item = T>>(iter: I) -> (res: Option<Self>)
        ensures
            res is Some ==> res->0.wf(),
            exists|lower: usize, yielded: Seq<T>|
                #![trigger crate::slice_iter::announces(iter, lower), LazyVecView::collects_to(
                    yielded,
                    lower as nat,
                    Self::view_of(res),
                )]
                crate::slice_iter::announces(iter, lower) && LazyVecView::collects_to(
                    yielded,
                    lower as nat,
                    Self::view_of(res),
                ),
            (forall|lower: usize| #[trigger]
                crate::slice_iter::announces(iter, lower) ==> !LazyVecView::<T>::empty().can_reserve(
                    lower as nat,
                )) ==> res is None,
            iter.obeys_prophetic_iter_laws() ==> exists|lower: usize| #[trigger]
                crate::slice_iter::announces(iter, lower) && LazyVecView::collects_to(
                    iter.remaining(),
                    lower as nat,
                    Self::view_of(res),
                ),
            iter.obeys_prophetic_iter_laws() && iter.remaining().len() <= MAX_CAPACITY && (forall|
                lower: usize,
            | #[trigger]
                crate::slice_iter::announces(iter, lower) ==> LazyVecView::<T>::empty().can_reserve(
                    lower as nat,
                )) ==> res is Some && res->0@.elems == iter.remaining(),
    {
        let lower = ask_announced(&iter);
        let res = Self::from_iter_announced(iter, lower);
        proof {
            if iter.obeys_prophetic_iter_laws() {
                crate::laws::law_collect_gives_items(
                    iter.remaining(),
                    lower as nat,
                    Self::view_of(res),
                );
            }
        }
        res
    }

    /// A container of the items of `iter`, in order, or `None` if there cannot be room for
    /// `lower` items or for what the iterator yields.
    pub fn from_iter_announced<I: Iterator<Item = T>>(iter: I, lower: usize) -> (res: Option<Self>)
        ensures
            res is Some ==> res->0.wf(),
            !LazyVecView::<T>::empty().can_reserve(lower as nat) ==> res is None,
            exists|yielded: Seq<T>| #[trigger]
                LazyVecView::collects_to(yielded, lower as nat, Self::view_of(res)),
            iter.obeys_prophetic_iter_laws() ==> LazyVecView::collects_to(
                iter.remaining(),
                lower as nat,
                Self::view_of(res),
            ),
    {
        let mut all = Self::new();
        let complete = all.extend_announced(iter, lower);
        let ghost after = all@;
        let res = if complete {
            Some(all)
        } else {
            None
        };
        proof {
            let yielded = choose|yielded: Seq<T>| #[trigger]
                LazyVecView::<T>::empty().extends_to(yielded, lower as nat, after, complete);
            assert(LazyVecView::collects_to(yielded, lower as nat, Self::view_of(res)));
        }
        res
    }

    /// The view of a container that may be there.
    pub open spec fn view_of(container: Option<Self>) -> Option<LazyVecView<T>> {
        match container {
            Some(container) => Some(container@),
            None => None,
        }
    }
}

impl<T> core::ops::Deref for LazyVec<T> {
    type Target = [T];

    /// The elements as a slice.
    fn deref(&self) -> (s: &[T])
        ensures
            s@ == self@.elems,
    {
        self.as_slice()
    }
}

impl<T> core::ops::DerefMut for LazyVec<T> {
    /// The elements as a mutable slice.
    fn deref_mut(&mut self) -> (s: &mut [T])
        ensures
            s@ == old(self)@.elems,
            final(self)@ == (LazyVecView {
                elems: final(s)@,
                capacity: old(self)@.capacity,
            }),
            final(self).allocation() == old(self).allocation(),
            old(self).wf() && final(s)@.len() == s@.len() ==> final(self).wf(),
    {
        self.as_mut_slice()
    }
}

impl<T> IntoIterator for LazyVec<T> {
    type Item = T;

    type IntoIter = IntoIter<T>;

    /// Returns an iterator that hands out the elements themselves, in insertion order.
    fn into_iter(self) -> (it: IntoIter<T>)
        ensures
            it@ == self@.elems,
    {
        match self.buf {
            Some(buf) => IntoIter::over(buf.into_vec()),
            None => IntoIter::over(Vec::new()),
        }
    }
}

impl<'a, T> IntoIterator for &'a LazyVec<T> {
    type Item = &'a T;

    type IntoIter = core::slice::Iter<'a, T>;

    /// Returns an iterator over the elements in insertion order.
    fn into_iter(self) -> (it: core::slice::Iter<'a, T>)
        ensures
            it.remaining() == self@.elems.as_ref(),
            it.decrease() is Some,
            it.initial_value_relation(&it),
    {
        self.iter()
    }
}

impl<'a, T> IntoIterator for &'a mut LazyVec<T> {
    type Item = &'a mut T;

    type IntoIter = core::slice::IterMut<'a, T>;

    /// Returns a mutable iterator over the elements in insertion order.
    fn into_iter(self) -> (it: core::slice::IterMut<'a, T>)
        ensures
            it.obeys_prophetic_iter_laws(),
            it.remaining().len() == old(self)@.elems.len(),
            forall|i: int|
                0 <= i < old(self)@.elems.len() ==> *(#[trigger] it.remaining()[i])
                    == old(self)@.elems[i],
            final(self)@.elems.len() == old(self)@.elems.len(),
            forall|i: int|
                0 <= i < old(self)@.elems.len() ==> #[trigger] final(self)@.elems[i]
                    == *final(it.remaining()[i]),
            forall|rest: core::slice::IterMut<'a, T>, i: int, j: int|
                #![trigger has_resolved(rest), rest.remaining()[j], it.remaining()[i]]
                has_resolved(rest) && 0 <= j < rest.remaining().len() && 0 <= i
                    < old(self)@.elems.len() && rest.remaining()[j] == it.remaining()[i]
                    ==> has_resolved(it.remaining()[i]),
            final(self)@.capacity == old(self)@.capacity,
            final(self).allocation() == old(self).allocation(),
            old(self).wf() ==> final(self).wf(),
    {
        self.iter_mut()
    }
}

} // verus!
