//! The owning iterator.
use std::collections::VecDeque;
use vstd::prelude::*;

verus! {

/// Owning iterator over the elements of a [`crate::LazyVec`], in insertion order. Dropping it
/// drops the elements that it has not handed out, in the same order.
pub struct IntoIter<T> {
    /// The elements to come.
    rest: VecDeque<T>,
}

impl<T> View for IntoIter<T> {
    type V = Seq<T>;

    /// The elements to come, in the order in which they will be handed out.
    closed spec fn view(&self) -> Seq<T> {
        self.rest@
    }
}

impl<T> IntoIter<T> {
    /// An iterator that hands out the elements of `elems`.
    pub(crate) fn over(elems: Vec<T>) -> (it: Self)
        ensures
            it@ == elems@,
    {
        let mut front = elems;
        let mut rest: VecDeque<T> = VecDeque::with_capacity(front.len());
        while front.len() > 0
            invariant
                front@ + rest@ == elems@,
            decreases front.len(),
        {
            if let Some(elem) = front.pop() {
                rest.push_front(elem);
            }
        }
        IntoIter { rest }
    }
}

impl<T> Iterator for IntoIter<T> {
    type Item = T;

    /// Hands out the next element, if any is left.
    fn next(&mut self) -> (elem: Option<T>)
        ensures
            old(self)@.len() > 0 ==> elem == Some(old(self)@[0]) && final(self)@
                == old(self)@.drop_first(),
            old(self)@.len() == 0 ==> elem is None && final(self)@ == old(self)@,
    {
        self.rest.pop_front()
    }

    /// The number of elements that are left, exactly.
    fn size_hint(&self) -> (bounds: (usize, Option<usize>))
        ensures
            bounds.0 == self@.len(),
            bounds.1 == Some(bounds.0),
    {
        let left = self.rest.len();
        (left, Some(left))
    }
}

impl<T> vstd::std_specs::iter::IteratorSpecImpl for IntoIter<T> {
    open spec fn obeys_prophetic_iter_laws(&self) -> bool {
        true
    }

    open spec fn remaining(&self) -> Seq<T> {
        self@
    }

    open spec fn will_return_none(&self) -> bool {
        true
    }

    open spec fn decrease(&self) -> Option<nat> {
        Some(self@.len())
    }

    open spec fn initial_value_relation(&self, init: &Self) -> bool {
        init@ == self@
    }

    open spec fn peek(&self, index: int) -> Option<T> {
        if 0 <= index < self@.len() {
            Some(self@[index])
        } else {
            None
        }
    }
}

} // verus!
