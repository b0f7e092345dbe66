//! What holds of the operations together, stated of what they make of a container's view.
use vstd::prelude::*;

use vstd::arithmetic::power2::{is_pow2, pow2};

use crate::capacity::MAX_CAPACITY;
use crate::lazy_vec::LazyVec;
use crate::view::LazyVecView;

verus! {

/// A capacity is a `u8`, a valid container has no more elements than that, and a new one has neither
/// elements nor capacity.
pub proof fn law_limits<T>(m: LazyVecView<T>)
    ensures
        MAX_CAPACITY == u8::MAX,
        m.valid() <==> m.elems.len() <= m.capacity && m.capacity <= 255,
        m.headroom() == 255 - m.elems.len(),
        LazyVecView::<T>::empty().elems.len() == 0,
        LazyVecView::<T>::empty().capacity == 0,
{
}

/// The capacity is room that was requested: a container has a buffer exactly if its capacity is not
/// zero, and `Vec::with_capacity` made that buffer when asked for just this capacity.
pub proof fn law_capacity_is_requested_room<T>(v: LazyVec<T>)
    requires
        v.wf(),
    ensures
        v.allocation() is None <==> v@.capacity == 0,
        v.allocation() matches Some((room, made)) ==> {
            &&& room == v@.capacity
            &&& call_ensures(Vec::<T>::with_capacity, (room,), made)
        },
{
    v.lemma_allocation();
}

/// The capacity changes only with the buffer: where two containers, or one before and after an
/// operation, have the same allocation, they have the same capacity. So making room and giving it
/// back take a new buffer, and a container that was shrunk to its elements is in a buffer that was
/// requested for exactly their number.
pub proof fn law_new_capacity_needs_new_buffer<T>(before: LazyVec<T>, after: LazyVec<T>)
    requires
        before.wf(),
        after.wf(),
    ensures
        after.allocation() == before.allocation() ==> after@.capacity == before@.capacity,
        after@.capacity == after@.elems.len() && after@.elems.len() > 0 ==> {
            &&& after.allocation() matches Some((room, made))
            &&& room == after@.elems.len()
            &&& call_ensures(Vec::<T>::with_capacity, (room,), made)
        },
{
    before.lemma_allocation();
    after.lemma_allocation();
}

/// Every operation keeps the elements within the capacity and the capacity within `u8::MAX`, for
/// all arguments that it accepts.
pub proof fn law_operations_keep_bounds<T>(
    m: LazyVecView<T>,
    value: T,
    i: int,
    additional: nat,
    items: Seq<T>,
)
    requires
        m.valid(),
    ensures
        LazyVecView::<T>::empty().valid(),
        m.headroom() > 0 ==> m.push(value).valid(),
        0 <= i < m.elems.len() ==> m.swap_remove(i).valid(),
        0 <= i < m.elems.len() ==> m.update(i, value).valid(),
        m.can_reserve(additional) ==> m.reserve(additional).valid(),
        m.shrink_to_fit().valid(),
        m.can_reserve(additional) ==> m.extend(m.fitting(items), additional).valid(),
{
    crate::capacity::lemma_reserved_capacity_fits(m.elems.len() + additional);
    if m.can_reserve(additional) {
        law_push_all_appends(m.reserve(additional), m.fitting(items));
    }
}

/// Pushing items one after the other appends them in order, and never takes capacity away.
pub proof fn law_push_all_appends<T>(m: LazyVecView<T>, items: Seq<T>)
    requires
        m.valid(),
        items.len() <= m.headroom(),
    ensures
        m.push_all(items).elems == m.elems + items,
        m.push_all(items).valid(),
        m.capacity <= m.push_all(items).capacity,
    decreases items.len(),
{
    if items.len() > 0 {
        law_push_all_appends(m.push(items[0]), items.drop_first());
        assert(m.elems.push(items[0]) + items.drop_first() =~= m.elems + items);
    } else {
        assert(m.elems + items =~= m.elems);
    }
}

/// Pushing two runs of items after each other is pushing their concatenation.
pub proof fn law_push_all_concat<T>(m: LazyVecView<T>, first: Seq<T>, second: Seq<T>)
    ensures
        m.push_all(first).push_all(second) == m.push_all(first + second),
    decreases first.len(),
{
    if first.len() > 0 {
        law_push_all_concat(m.push(first[0]), first.drop_first(), second);
        assert((first + second).drop_first() =~= first.drop_first() + second);
    } else {
        assert(first + second =~= second);
    }
}

/// A container that is filled by pushes alone has no room allocated while it is empty, and then
/// room for the least power of two that its elements fit, at least 4, up to the ceiling.
pub proof fn law_growth_pattern<T>(items: Seq<T>)
    requires
        items.len() <= MAX_CAPACITY,
    ensures
        LazyVecView::<T>::empty().push_all(items).capacity == if items.len() == 0 {
            0
        } else if crate::capacity::reserved_capacity(items.len()) <= MAX_CAPACITY {
            crate::capacity::reserved_capacity(items.len())
        } else {
            MAX_CAPACITY as nat
        },
        0 < items.len() <= 128 ==> {
            let capacity = LazyVecView::<T>::empty().push_all(items).capacity;
            &&& is_pow2(capacity as int)
            &&& capacity >= 4
            &&& capacity >= items.len()
            &&& forall|p: int| #[trigger]
                is_pow2(p) && p >= 4 && p >= items.len() ==> p >= capacity
        },
        items.len() > 128 ==> LazyVecView::<T>::empty().push_all(items).capacity == 255,
    decreases items.len(),
{
    if items.len() > 0 {
        crate::capacity::lemma_reserved_capacity_least(items.len());
        let front = items.drop_last();
        law_growth_pattern(front);
        law_push_all_appends(LazyVecView::<T>::empty(), front);
        LazyVecView::<T>::empty().lemma_push_all_push(front, items.last());
        assert(front.push(items.last()) =~= items);
        lemma_brackets(items.len());
        lemma_brackets(front.len());
    }
}

/// The capacity that `n` elements are given, range by range.
proof fn lemma_brackets(n: nat)
    ensures
        n <= 4 ==> crate::capacity::reserved_capacity(n) == 4,
        4 < n <= 8 ==> crate::capacity::reserved_capacity(n) == 8,
        8 < n <= 16 ==> crate::capacity::reserved_capacity(n) == 16,
        16 < n <= 32 ==> crate::capacity::reserved_capacity(n) == 32,
        32 < n <= 64 ==> crate::capacity::reserved_capacity(n) == 64,
        64 < n <= 128 ==> crate::capacity::reserved_capacity(n) == 128,
        128 < n ==> crate::capacity::reserved_capacity(n) > MAX_CAPACITY,
{
    crate::capacity::lemma_reserved_capacity_fits(n);
    reveal_with_fuel(crate::capacity::next_power_of_two, 9);
}

/// No room at all, a power of two that is at least 4, or the ceiling.
pub open spec fn regular_capacity(capacity: nat) -> bool {
    ||| capacity == 0
    ||| crate::capacity::is_power_of_two(capacity) && capacity >= 4
    ||| capacity == MAX_CAPACITY
}

/// Growth follows powers of two: a new container has a regular capacity, and every operation but
/// `shrink_to_fit` keeps it regular, in whatever order they come. `shrink_to_fit` does where it
/// leaves a regular number of elements, so where it frees the buffer.
pub proof fn law_capacity_stays_regular<T>(
    m: LazyVecView<T>,
    value: T,
    i: int,
    additional: nat,
    items: Seq<T>,
)
    requires
        m.valid(),
        regular_capacity(m.capacity),
    ensures
        regular_capacity(LazyVecView::<T>::empty().capacity),
        m.headroom() > 0 ==> regular_capacity(m.push(value).capacity),
        0 <= i < m.elems.len() ==> regular_capacity(m.swap_remove(i).capacity),
        0 <= i < m.elems.len() ==> regular_capacity(m.update(i, value).capacity),
        m.can_reserve(additional) ==> regular_capacity(m.reserve(additional).capacity),
        m.can_reserve(additional) ==> regular_capacity(
            m.extend(m.fitting(items), additional).capacity,
        ),
        regular_capacity(m.elems.len()) ==> regular_capacity(m.shrink_to_fit().capacity),
{
    if m.headroom() > 0 {
        lemma_push_stays_regular(m, value);
    }
    if m.can_reserve(additional) {
        law_reserve(m, additional);
        law_operations_keep_bounds(m, value, i, additional, items);
        lemma_push_all_stays_regular(m.reserve(additional), m.fitting(items));
    }
}

proof fn lemma_push_stays_regular<T>(m: LazyVecView<T>, value: T)
    requires
        m.valid(),
        m.headroom() > 0,
        regular_capacity(m.capacity),
    ensures
        regular_capacity(m.push(value).capacity),
{
    reveal_with_fuel(crate::capacity::is_power_of_two, 3);
    if m.elems.len() == m.capacity && m.capacity > 0 {
        assert(crate::capacity::is_power_of_two(2 * m.capacity));
    }
}

proof fn lemma_push_all_stays_regular<T>(m: LazyVecView<T>, items: Seq<T>)
    requires
        m.valid(),
        items.len() <= m.headroom(),
        regular_capacity(m.capacity),
    ensures
        regular_capacity(m.push_all(items).capacity),
    decreases items.len(),
{
    if items.len() > 0 {
        lemma_push_stays_regular(m, items[0]);
        lemma_push_all_stays_regular(m.push(items[0]), items.drop_first());
    }
}

/// A push puts the value behind the elements that were there, which keep their places. With room to
/// spare it leaves the capacity alone.
pub proof fn law_push_appends_one<T>(m: LazyVecView<T>, value: T)
    requires
        m.valid(),
    ensures
        m.push(value).elems.len() == m.elems.len() + 1,
        m.push(value).elems.last() == value,
        forall|i: int|
            0 <= i < m.elems.len() ==> #[trigger] m.push(value).elems[i] == m.elems[i],
        m.elems.len() < m.capacity ==> m.push(value).capacity == m.capacity,
{
}

/// Replacing an element leaves all others, their number and the capacity alone.
pub proof fn law_update_replaces_one<T>(m: LazyVecView<T>, i: int, value: T)
    requires
        0 <= i < m.elems.len(),
    ensures
        m.update(i, value).elems.len() == m.elems.len(),
        m.update(i, value).elems[i] == value,
        forall|j: int|
            0 <= j < m.elems.len() && j != i ==> #[trigger] m.update(i, value).elems[j]
                == m.elems[j],
        m.update(i, value).capacity == m.capacity,
{
}

/// When a full container below the ceiling has to grow, whatever made it full, it gets room for 4
/// if it had none, and otherwise twice the room it had, or the ceiling where that is less. So it
/// never grows beyond what doubling gives, and there is room for the new element.
pub proof fn law_growth_doubles<T>(m: LazyVecView<T>, value: T)
    requires
        m.valid(),
        m.elems.len() == m.capacity < MAX_CAPACITY,
    ensures
        m.push(value).capacity >= 2 * m.capacity || m.push(value).capacity == MAX_CAPACITY,
        m.push(value).capacity > m.capacity,
        m.push(value).elems.len() <= m.push(value).capacity,
        m.capacity == 0 ==> m.push(value).capacity == 4,
        m.capacity > 0 ==> m.push(value).capacity <= 2 * m.capacity,
        m.capacity > 0 && 2 * m.capacity <= 255 ==> m.push(value).capacity == 2 * m.capacity,
        2 * m.capacity > 255 ==> m.push(value).capacity == 255,
{
}

/// Removing the element that was pushed last gives that element back and leaves the elements as
/// they were before the push.
pub proof fn law_swap_remove_undoes_push<T>(m: LazyVecView<T>, value: T)
    ensures
        m.push(value).elems[m.elems.len() as int] == value,
        m.push(value).swap_remove(m.elems.len() as int).elems == m.elems,
{
    assert(m.push(value).swap_remove(m.elems.len() as int).elems =~= m.elems);
}

/// `swap_remove` takes away the one element that it returns and keeps all others: the last one
/// moves to the hole, the rest stay where they are. It never changes the capacity.
pub proof fn law_swap_remove_keeps_others<T>(m: LazyVecView<T>, i: int)
    requires
        0 <= i < m.elems.len(),
    ensures
        m.elems.to_multiset() == m.swap_remove(i).elems.to_multiset().insert(m.elems[i]),
        m.swap_remove(i).elems.len() == m.elems.len() - 1,
        forall|j: int|
            0 <= j < m.elems.len() - 1 ==> #[trigger] m.swap_remove(i).elems[j] == if j == i {
                m.elems.last()
            } else {
                m.elems[j]
            },
        m.swap_remove(i).capacity == m.capacity,
{
    let front = m.elems.drop_last();
    let last = m.elems.last();
    assert(m.elems =~= front.push(last));
    vstd::seq_lib::to_multiset_build(front, last);
    if i < front.len() {
        let others = front.remove(i);
        assert(front =~= others.insert(i, m.elems[i]));
        vstd::seq_lib::to_multiset_insert(others, i, m.elems[i]);
        assert(m.swap_remove(i).elems =~= others.insert(i, last));
        vstd::seq_lib::to_multiset_insert(others, i, last);
        assert(m.elems.to_multiset() =~= m.swap_remove(i).elems.to_multiset().insert(m.elems[i]));
    } else {
        assert(m.swap_remove(i).elems =~= front);
    }
}

/// `reserve` makes room for the elements that it is asked for, keeps the elements, and never
/// takes capacity away. Where there is room already it changes nothing; doing it twice is doing it
/// once. Where it allocates, the capacity is a power of two, at least 4, and no smaller such one
/// would do.
pub proof fn law_reserve<T>(m: LazyVecView<T>, additional: nat)
    ensures
        m.elems.len() + additional <= m.reserve(additional).capacity,
        m.reserve(additional).elems == m.elems,
        m.capacity <= m.reserve(additional).capacity,
        m.elems.len() + additional <= m.capacity ==> m.reserve(additional) == m,
        m.reserve(additional).reserve(additional) == m.reserve(additional),
        m.elems.len() + additional > m.capacity ==> {
            &&& crate::capacity::is_power_of_two(m.reserve(additional).capacity)
            &&& m.reserve(additional).capacity >= 4
            &&& forall|p: nat| #[trigger]
                crate::capacity::is_power_of_two(p) && p >= 4 && p >= m.elems.len() + additional
                    ==> p >= m.reserve(additional).capacity
        },
        m.elems.len() + additional > m.capacity ==> {
            &&& is_pow2(m.reserve(additional).capacity as int)
            &&& forall|p: int| #[trigger]
                is_pow2(p) && p >= 4 && p >= m.elems.len() + additional ==> p >= m.reserve(
                    additional,
                ).capacity
        },
{
    let needed = m.elems.len() + additional;
    crate::capacity::lemma_reserved_capacity_least(needed);
    crate::capacity::lemma_next_power_of_two(needed);
    assert(crate::capacity::is_power_of_two(4)) by {
        reveal_with_fuel(crate::capacity::is_power_of_two, 3);
    }
    assert forall|p: nat| #[trigger]
        crate::capacity::is_power_of_two(p) && p >= needed implies p
        >= crate::capacity::next_power_of_two(needed) by {
        crate::capacity::lemma_next_power_of_two_least(needed, p);
    }
}

/// Room can be reserved exactly if it is there already or the capacity that would be allocated
/// for it is at most the ceiling: if some power of two fits the elements and a `u8`.
pub proof fn law_reserve_reach<T>(m: LazyVecView<T>, additional: nat)
    ensures
        m.can_reserve(additional) <==> m.elems.len() + additional <= m.capacity
            || crate::capacity::reserved_capacity(m.elems.len() + additional) <= MAX_CAPACITY,
        m.can_reserve(additional) <==> m.elems.len() + additional <= m.capacity || exists|p: int|
            #[trigger] is_pow2(p) && m.elems.len() + additional <= p <= 255,
{
    let needed = m.elems.len() + additional;
    crate::capacity::lemma_reserved_capacity_fits(needed);
    crate::capacity::lemma_reserved_capacity_least(needed);
    assert(is_pow2(4)) by {
        reveal_with_fuel(is_pow2, 3);
    }
    assert forall|p: int| #[trigger] is_pow2(p) && needed <= p <= 255 implies needed <= 128 by {
        if p < 4 {
        } else {
            assert(p >= crate::capacity::reserved_capacity(needed));
        }
    }
}

/// Pushes that the capacity has room for do not allocate. So after `reserve(n)` no `n` pushes do.
pub proof fn law_pushes_within_capacity<T>(m: LazyVecView<T>, items: Seq<T>)
    ensures
        m.elems.len() + items.len() <= m.capacity ==> m.push_all(items).capacity == m.capacity,
        m.reserve(items.len()).push_all(items).capacity == m.reserve(items.len()).capacity,
{
    law_reserve(m, items.len());
    lemma_pushes_within_capacity(m.reserve(items.len()), items);
    if m.elems.len() + items.len() <= m.capacity {
        lemma_pushes_within_capacity(m, items);
    }
}

proof fn lemma_pushes_within_capacity<T>(m: LazyVecView<T>, items: Seq<T>)
    requires
        m.elems.len() + items.len() <= m.capacity,
    ensures
        m.push_all(items).capacity == m.capacity,
    decreases items.len(),
{
    if items.len() > 0 {
        lemma_pushes_within_capacity(m.push(items[0]), items.drop_first());
    }
}

/// `shrink_to_fit` keeps the elements and leaves no capacity beyond them; doing it twice is doing
/// it once. A container without elements is left as a new one is, with nothing allocated.
pub proof fn law_shrink_to_fit<T>(m: LazyVecView<T>)
    ensures
        m.shrink_to_fit().elems == m.elems,
        m.shrink_to_fit().capacity == m.elems.len(),
        m.shrink_to_fit().shrink_to_fit() == m.shrink_to_fit(),
        m.elems.len() == 0 ==> m.shrink_to_fit() == LazyVecView::<T>::empty(),
{
    if m.elems.len() == 0 {
        assert(m.elems =~= Seq::empty());
    }
}

/// Where `extend` is complete, the elements are those from before followed by all items, whatever
/// number of items was announced. Where it is not, they are still those from before followed by
/// the first of the items, maybe none.
pub proof fn law_extend_appends<T>(
    m: LazyVecView<T>,
    items: Seq<T>,
    lower: nat,
    after: LazyVecView<T>,
    complete: bool,
)
    requires
        m.valid(),
        m.extends_to(items, lower, after, complete),
    ensures
        after.valid(),
        m.capacity <= after.capacity,
        complete ==> after.elems == m.elems + items,
        !complete ==> exists|n: int|
            0 <= n <= items.len() && after.elems == m.elems + #[trigger] items.take(n),
{
    if m.can_reserve(lower) {
        law_operations_keep_bounds(m, arbitrary(), 0, lower, items);
        law_reserve(m, lower);
        law_push_all_appends(m.reserve(lower), m.fitting(items));
        if !complete {
            assert(m.fitting(items) == items.take(m.headroom()));
        }
    } else {
        assert(m.elems =~= m.elems + items.take(0));
    }
}

/// What extending comes to, in full. Announced items without room are refused, and the container is
/// as it was. Otherwise all items are appended if they fit 255 elements in all, and if they do not,
/// exactly the first ones that do.
pub proof fn law_extend_outcome<T>(
    m: LazyVecView<T>,
    items: Seq<T>,
    lower: nat,
    after: LazyVecView<T>,
    complete: bool,
)
    requires
        m.valid(),
        m.extends_to(items, lower, after, complete),
    ensures
        m.elems.len() + lower > m.capacity && m.elems.len() + lower > 128 ==> {
            &&& after.elems == m.elems
            &&& after.capacity == m.capacity
            &&& !complete
        },
        m.elems.len() + lower <= m.capacity || m.elems.len() + lower <= 128 ==> {
            &&& complete <==> m.elems.len() + items.len() <= 255
            &&& complete ==> after.elems == m.elems + items
            &&& !complete ==> after.elems == m.elems + items.take(255 - m.elems.len())
        },
{
    law_extend_appends(m, items, lower, after, complete);
    if m.can_reserve(lower) {
        law_operations_keep_bounds(m, arbitrary(), 0, lower, items);
        law_reserve(m, lower);
        law_push_all_appends(m.reserve(lower), m.fitting(items));
    }
}

/// Extending the same container with the same items and announcement has one outcome.
pub proof fn law_extend_has_one_outcome<T>(
    m: LazyVecView<T>,
    items: Seq<T>,
    lower: nat,
    after: LazyVecView<T>,
    complete: bool,
    other_after: LazyVecView<T>,
    other_complete: bool,
)
    requires
        m.extends_to(items, lower, after, complete),
        m.extends_to(items, lower, other_after, other_complete),
    ensures
        after == other_after,
        complete == other_complete,
{
}

/// The capacity after extending. Where the room that is there is enough for the announced items and
/// for those that came, it stays. Where the announced items need more, it is the least power of two
/// that is at least 4 and fits both the announced items and those that came, or the ceiling where
/// that is beyond it.
pub proof fn law_extend_capacity<T>(
    m: LazyVecView<T>,
    items: Seq<T>,
    lower: nat,
    after: LazyVecView<T>,
    complete: bool,
)
    requires
        m.valid(),
        m.extends_to(items, lower, after, complete),
    ensures
        m.elems.len() + lower <= m.capacity && after.elems.len() <= m.capacity ==> after.capacity
            == m.capacity,
        m.capacity < m.elems.len() + lower <= 128 && after.elems.len() <= 128 ==> {
            &&& is_pow2(after.capacity as int)
            &&& after.capacity >= 4
            &&& after.capacity >= m.elems.len() + lower
            &&& after.capacity >= after.elems.len()
            &&& forall|p: int| #[trigger]
                is_pow2(p) && p >= 4 && p >= m.elems.len() + lower && p >= after.elems.len() ==> p
                    >= after.capacity
        },
        m.capacity < m.elems.len() + lower <= 128 && after.elems.len() > 128 ==> after.capacity
            == 255,
{
    law_extend_outcome(m, items, lower, after, complete);
    if m.can_reserve(lower) {
        let reserved = m.reserve(lower);
        let added = m.fitting(items);
        law_reserve(m, lower);
        law_pushes_within_capacity(reserved, added);
        if m.elems.len() + lower > m.capacity {
            crate::capacity::lemma_reserved_capacity_fits(m.elems.len() + lower);
            crate::capacity::lemma_reserved_capacity_least(m.elems.len() + lower);
            crate::capacity::lemma_reserved_capacity_least(reserved.capacity);
            crate::capacity::lemma_reserved_capacity_least(after.elems.len());
            lemma_pushes_from_power(reserved, added);
        }
    }
}

/// An announcement that the room covers already makes no difference: the items that fit 255 elements
/// are pushed, one after the other.
pub proof fn law_covered_announcement_is_pushing<T>(
    m: LazyVecView<T>,
    items: Seq<T>,
    lower: nat,
    after: LazyVecView<T>,
    complete: bool,
)
    requires
        m.valid(),
        m.elems.len() + lower <= m.capacity,
        m.extends_to(items, lower, after, complete),
    ensures
        m.elems.len() + items.len() <= 255 ==> after == m.push_all(items),
        m.elems.len() + items.len() > 255 ==> after == m.push_all(
            items.take(255 - m.elems.len()),
        ),
{
    law_reserve(m, lower);
}

/// Pushes that start from a power of two follow the powers of two.
proof fn lemma_pushes_from_power<T>(m: LazyVecView<T>, items: Seq<T>)
    requires
        m.valid(),
        m.capacity <= 128,
        crate::capacity::reserved_capacity(m.capacity) == m.capacity,
        items.len() <= m.headroom(),
    ensures
        ({
            let n = m.elems.len() + items.len();
            m.push_all(items).capacity == if n <= m.capacity {
                m.capacity
            } else if n <= 128 {
                crate::capacity::reserved_capacity(n)
            } else {
                255
            }
        }),
    decreases items.len(),
{
    if items.len() > 0 {
        let front = items.drop_last();
        lemma_pushes_from_power(m, front);
        law_push_all_appends(m, front);
        m.lemma_push_all_push(front, items.last());
        assert(front.push(items.last()) =~= items);
        lemma_brackets(m.capacity);
        lemma_brackets(m.elems.len() + items.len());
        lemma_brackets(m.elems.len() + front.len());
    }
}

/// Pushes beyond the room of a container with capacity double that room as often as it takes and no
/// more: the capacity is the first of its doublings that fits the elements, or the ceiling where the
/// doubling before still did not fit them and the next is beyond it.
pub proof fn law_pushes_double<T>(m: LazyVecView<T>, items: Seq<T>)
    requires
        m.valid(),
        m.capacity > 0,
        m.elems.len() + items.len() <= 255,
    ensures
        exists|k: nat|
            ({
                let n = m.elems.len() + items.len();
                let c = m.capacity * #[trigger] pow2(k);
                ||| m.push_all(items).capacity == c && n <= c <= 255 && (k > 0 ==> c < 2 * n)
                ||| m.push_all(items).capacity == 255 && c < n && 2 * c > 255
            }),
    decreases items.len(),
{
    let n = m.elems.len() + items.len();
    let all = m.push_all(items).capacity;
    if items.len() == 0 {
        vstd::arithmetic::power2::lemma2_to64();
        assert(m.capacity * pow2(0) == m.capacity);
    } else {
        let front = items.drop_last();
        let before = m.push_all(front).capacity;
        law_pushes_double(m, front);
        law_push_all_appends(m, front);
        m.lemma_push_all_push(front, items.last());
        assert(front.push(items.last()) =~= items);
        let k = choose|k: nat|
            ({
                let c = m.capacity * #[trigger] pow2(k);
                ||| before == c && n - 1 <= c <= 255 && (k > 0 ==> c < 2 * (n - 1))
                ||| before == 255 && c < n - 1 && 2 * c > 255
            });
        let c = m.capacity * pow2(k);
        vstd::arithmetic::power2::lemma_pow2_unfold(k + 1);
        assert(m.capacity * pow2(k + 1) == 2 * c) by (nonlinear_arith)
            requires
                pow2(k + 1) == 2 * pow2(k),
                c == m.capacity * pow2(k),
        ;
        if before == c && n - 1 <= c <= 255 && n > c && 2 * c <= 255 {
            let d = m.capacity * pow2(k + 1);
            assert(all == d && n <= d <= 255 && d < 2 * n);
        } else {
            assert(pow2(k) == pow2(k));
        }
    }
}

/// What `from_iter` collects are exactly the items, whatever number of them was announced. Where
/// the announced room can be had and the items fit, there is a container.
pub proof fn law_collect_gives_items<T>(items: Seq<T>, lower: nat, res: Option<LazyVecView<T>>)
    requires
        LazyVecView::collects_to(items, lower, res),
    ensures
        res is Some ==> res->0.valid() && res->0.elems == items,
        res is Some <==> LazyVecView::<T>::empty().can_reserve(lower) && items.len()
            <= MAX_CAPACITY,
{
    let empty = LazyVecView::<T>::empty();
    if res is Some {
        law_extend_appends(empty, items, lower, res->0, true);
        assert(empty.elems + items =~= items);
    }
}

/// Collecting is extending a new container, elements and capacity alike: there is a container
/// exactly where extending is complete, and then it is the one that extending makes.
pub proof fn law_collect_is_extending_new<T>(
    items: Seq<T>,
    lower: nat,
    res: Option<LazyVecView<T>>,
    after: LazyVecView<T>,
    complete: bool,
)
    requires
        LazyVecView::collects_to(items, lower, res),
        LazyVecView::<T>::empty().extends_to(items, lower, after, complete),
    ensures
        res is Some <==> complete,
        res is Some ==> res->0 == after,
{
}

/// The capacity of what is collected: none where nothing was announced and nothing came; otherwise
/// the least power of two that is at least 4 and fits both the announced items and those that came,
/// or the ceiling where more than 128 came.
pub proof fn law_collect_capacity<T>(items: Seq<T>, lower: nat, res: Option<LazyVecView<T>>)
    requires
        LazyVecView::collects_to(items, lower, res),
    ensures
        res is Some <==> lower <= 128 && items.len() <= 255,
        res is Some && lower == 0 && items.len() == 0 ==> res->0.capacity == 0,
        res is Some && (lower > 0 || items.len() > 0) && items.len() <= 128 ==> {
            &&& is_pow2(res->0.capacity as int)
            &&& res->0.capacity >= 4
            &&& res->0.capacity >= lower
            &&& res->0.capacity >= items.len()
            &&& forall|p: int| #[trigger]
                is_pow2(p) && p >= 4 && p >= lower && p >= items.len() ==> p >= res->0.capacity
        },
        res is Some && items.len() > 128 ==> res->0.capacity == 255,
{
    let empty = LazyVecView::<T>::empty();
    law_collect_gives_items(items, lower, res);
    if res is Some {
        law_extend_capacity(empty, items, lower, res->0, true);
        if lower == 0 {
            law_growth_pattern(items);
            crate::capacity::lemma_reserved_capacity_fits(items.len());
            crate::capacity::lemma_reserved_capacity_least(items.len());
            assert(empty.reserve(0) == empty);
        }
    }
}

/// Up to 128 elements in all, `extend` and `from_iter` append every item of an iterator that
/// announces no more items than it yields.
pub proof fn law_honest_iterators_complete<T>(
    m: LazyVecView<T>,
    items: Seq<T>,
    lower: nat,
    after: LazyVecView<T>,
    complete: bool,
    res: Option<LazyVecView<T>>,
)
    requires
        m.valid(),
        lower <= items.len(),
        m.elems.len() + items.len() <= 128,
        m.extends_to(items, lower, after, complete),
        LazyVecView::collects_to(items, lower, res),
    ensures
        complete && after.elems == m.elems + items,
        res is Some && res->0.elems == items,
{
    law_extend_appends(m, items, lower, after, complete);
    law_collect_gives_items(items, lower, res);
}

/// Extending without an announcement is pushing the items one after the other. Announcing exactly
/// as many items as there are costs at most one allocation, the one for the announced room.
pub proof fn law_extend_is_pushing<T>(m: LazyVecView<T>, items: Seq<T>)
    requires
        m.valid(),
    ensures
        m.extend(items, 0) == m.push_all(items),
        m.extend(items, items.len()).capacity == m.reserve(items.len()).capacity,
{
    law_pushes_within_capacity(m, items);
}

/// What is left to hand out of `elems` after `n` calls of the owning iterator's `next`.
pub open spec fn left_after<T>(elems: Seq<T>, n: nat) -> Seq<T>
    decreases n,
{
    if n == 0 {
        elems
    } else {
        let before = left_after(elems, (n - 1) as nat);
        if before.len() > 0 {
            before.drop_first()
        } else {
            before
        }
    }
}

/// The owning iterator hands out every element once, in insertion order, and then none: after `n`
/// calls the first `n` elements are gone, and the next one to come is the one at `n`.
pub proof fn law_into_iter_yields_in_order<T>(elems: Seq<T>, n: nat)
    ensures
        n <= elems.len() ==> left_after(elems, n) == elems.skip(n as int),
        n < elems.len() ==> left_after(elems, n)[0] == elems[n as int],
        n >= elems.len() ==> left_after(elems, n).len() == 0,
    decreases n,
{
    if n == 0 {
        assert(elems.skip(0) =~= elems);
    } else {
        law_into_iter_yields_in_order(elems, (n - 1) as nat);
        if n <= elems.len() {
            assert(elems.skip(n - 1).drop_first() =~= elems.skip(n as int));
        }
    }
}

/// Collecting what the owning iterator hands out gives the same elements back. The iterator
/// announces exactly what is left, so this holds of up to 128 elements, for which the announced
/// room can be allocated.
pub proof fn law_collect_round_trip<T>(m: LazyVecView<T>, res: Option<LazyVecView<T>>)
    requires
        m.valid(),
        m.elems.len() <= 128,
        LazyVecView::collects_to(m.elems, m.elems.len(), res),
    ensures
        res is Some,
        res->0.elems == m.elems,
{
    law_collect_gives_items(m.elems, m.elems.len(), res);
}

} // verus!
