//! The heap buffer of a container, with a record of the room that was requested for it.
use vstd::prelude::*;

verus! {

/// Elements in a `Vec` that was made with room for a given number of them.
///
/// The record of that number is set where the `Vec` is made, and nowhere else. A buffer is never
/// filled beyond it, so its `Vec` has no reason to allocate again.
pub(crate) struct Buffer<T> {
    elems: Vec<T>,
    /// The room that was requested.
    room: Ghost<usize>,
    /// What `Vec::with_capacity` returned for that room.
    made: Ghost<Vec<T>>,
}

impl<T> View for Buffer<T> {
    type V = Seq<T>;

    closed spec fn view(&self) -> Seq<T> {
        self.elems@
    }
}

impl<T> Buffer<T> {
    /// The room that was requested.
    pub(crate) closed spec fn room(&self) -> usize {
        self.room@
    }

    /// The `Vec` that was made for that room, as it was then.
    pub(crate) closed spec fn made(&self) -> Vec<T> {
        self.made@
    }

    /// The `Vec` that holds the elements.
    pub(crate) closed spec fn vec(&self) -> Vec<T> {
        self.elems
    }

    /// The buffer is what `Vec::with_capacity` made for the recorded room, filled within it.
    pub(crate) open spec fn wf(&self) -> bool {
        &&& self@.len() <= self.room()
        &&& call_ensures(Vec::<T>::with_capacity, (self.room(),), self.made())
    }

    /// The same request for room stands behind both buffers.
    pub(crate) open spec fn same_request(&self, other: &Self) -> bool {
        self.room() == other.room() && self.made() == other.made()
    }

    /// An empty buffer, made with room for `room` elements.
    pub(crate) fn with_room(room: usize) -> (buf: Self)
        ensures
            buf.wf(),
            buf.room() == room,
            buf@ == Seq::<T>::empty(),
            buf.vec() == buf.made(),
            call_ensures(Vec::<T>::with_capacity, (room,), buf.vec()),
    {
        let elems: Vec<T> = Vec::with_capacity(room);
        Buffer { elems, room: Ghost(room), made: Ghost(elems) }
    }

    /// Appends `value` within the room.
    pub(crate) fn push(&mut self, value: T)
        requires
            old(self).wf(),
            old(self)@.len() < old(self).room(),
        ensures
            final(self).wf(),
            final(self)@ == old(self)@.push(value),
            final(self).same_request(old(self)),
    {
        self.elems.push(value);
    }

    /// Moves all elements of `other` to the end, within the room.
    pub(crate) fn append(&mut self, other: &mut Self)
        requires
            old(self).wf(),
            old(self)@.len() + old(other)@.len() <= old(self).room(),
        ensures
            final(self).wf(),
            final(self)@ == old(self)@ + old(other)@,
            final(self).same_request(old(self)),
            final(other)@ == Seq::<T>::empty(),
    {
        self.elems.append(&mut other.elems);
    }

    /// Removes and returns the element at `idx`, and moves the last element into its place.
    pub(crate) fn swap_remove(&mut self, idx: usize) -> (removed: T)
        requires
            old(self).wf(),
            idx < old(self)@.len(),
        ensures
            final(self).wf(),
            removed == old(self)@[idx as int],
            final(self)@ == old(self)@.update(idx as int, old(self)@.last()).drop_last(),
            final(self).same_request(old(self)),
    {
        self.elems.swap_remove(idx)
    }

    /// The elements as a slice.
    #[inline]
    pub(crate) fn as_slice(&self) -> (s: &[T])
        ensures
            s@ == self@,
    {
        self.elems.as_slice()
    }

    /// The elements as a mutable slice.
    #[inline]
    pub(crate) fn as_mut_slice(&mut self) -> (s: &mut [T])
        ensures
            s@ == old(self)@,
            final(self)@ == final(s)@,
            final(self).same_request(old(self)),
    {
        self.elems.as_mut_slice()
    }

    /// The elements, out of the buffer.
    pub(crate) fn into_vec(self) -> (elems: Vec<T>)
        ensures
            elems@ == self@,
    {
        self.elems
    }
}

} // verus!
