//! What the library relies on of iterators of the standard library.
use vstd::prelude::*;
use vstd::std_specs::iter::IteratorSpec;

verus! {

/// Declares `core::slice::IterMut`, the iterator over mutable references to the elements of a
/// slice. Nothing is said of what is inside.
#[verifier::external_type_specification]
#[verifier::external_body]
#[verifier::reject_recursive_types(T)]
pub struct ExIterMut<'a, T: 'a>(core::slice::IterMut<'a, T>);

/// Calls `iter_mut` of `core::slice`.
///
/// The iterator yields one mutable reference per element, from the first element to the last. Each
/// reference starts at the element's value, and what it holds in the end is what the element is
/// then. The slice keeps its length. The iterator itself changes no element: an iterator that is
/// done with leaves the elements as they are whose references it has not yielded.
#[verifier::external_body]
pub(crate) fn slice_iter_mut<'a, T>(slice: &'a mut [T]) -> (iter: core::slice::IterMut<'a, T>)
    ensures
        iter.obeys_prophetic_iter_laws(),
        iter.remaining().len() == old(slice)@.len(),
        forall|i: int|
            0 <= i < old(slice)@.len() ==> *(#[trigger] iter.remaining()[i]) == old(slice)@[i],
        final(slice)@.len() == old(slice)@.len(),
        forall|i: int|
            0 <= i < old(slice)@.len() ==> #[trigger] final(slice)@[i] == *final(iter.remaining()[i]),
        forall|rest: core::slice::IterMut<'a, T>, i: int, j: int|
            #![trigger has_resolved(rest), rest.remaining()[j], iter.remaining()[i]]
            has_resolved(rest) && 0 <= j < rest.remaining().len() && 0 <= i < old(slice)@.len()
                && rest.remaining()[j] == iter.remaining()[i] ==> has_resolved(iter.remaining()[i]),
{
    slice.iter_mut()
}

/// Calls `size_hint` of `core::iter::Iterator` and hands back the lower bound.
///
/// Nothing is claimed of the bound. It is what the iterator announces, and an iterator may announce
/// more items than it yields.
#[verifier::external_body]
pub(crate) fn announced_items<I: Iterator>(iter: &I) -> (lower: usize) {
    iter.size_hint().0
}

/// `lower` is a bound that asking `iter` for the items to come can give: what a call of
/// [`announced_items`] on it returns.
pub closed spec fn announces<I: Iterator>(iter: I, lower: usize) -> bool {
    call_ensures(announced_items::<I>, (&iter,), lower)
}

/// What an iterator announces is what asking it returned, for every iterator: the bound is taken as
/// it is, neither rounded nor replaced.
pub(crate) proof fn law_announcement_is_what_was_asked<I: Iterator>(iter: I, lower: usize)
    ensures
        announces(iter, lower) <==> call_ensures(announced_items::<I>, (&iter,), lower),
{
}

/// The number of items that `iter` announces, at least.
pub(crate) fn ask_announced<I: Iterator>(iter: &I) -> (lower: usize)
    ensures
        announces(*iter, lower),
        call_ensures(announced_items::<I>, (iter,), lower),
{
    call_with(announced_items::<I>, iter)
}

/// Calls `f` with `arg`.
fn call_with<A, B, F: Fn(&A) -> B>(f: F, arg: &A) -> (res: B)
    requires
        call_requires(f, (arg,)),
    ensures
        call_ensures(f, (arg,), res),
{
    f(arg)
}

} // verus!
