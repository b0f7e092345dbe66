//! How much room a container has after it grew or was asked to reserve.
use vstd::prelude::*;

verus! {

/// The largest number of elements a container can hold, `u8::MAX`.
pub const MAX_CAPACITY: usize = 255;

/// The room that the first allocation makes, at least.
pub const MIN_ALLOCATION: usize = 4;

/// The largest power of two that a capacity can be.
pub const MAX_POWER: usize = 128;

/// One of 1, 2, 4, 8, and so on.
pub open spec fn is_power_of_two(p: nat) -> bool
    decreases p,
{
    p == 1 || (p > 1 && p % 2 == 0 && is_power_of_two(p / 2))
}

/// The least power of two that is not below `n`.
pub open spec fn next_power_of_two(n: nat) -> nat
    decreases n,
{
    if n <= 1 {
        1
    } else {
        2 * next_power_of_two((n + 1) / 2)
    }
}

/// The capacity that a full container of capacity `cap` gets when it has to grow: 4 at first,
/// and from then on twice as much as before, up to the ceiling.
pub open spec fn grown_capacity(cap: nat) -> nat {
    if cap == 0 {
        MIN_ALLOCATION as nat
    } else if 2 * cap <= MAX_CAPACITY {
        2 * cap
    } else {
        MAX_CAPACITY as nat
    }
}

/// The capacity that is allocated to make room for `needed` elements in all: a power of two, and
/// at least 4.
pub open spec fn reserved_capacity(needed: nat) -> nat {
    if next_power_of_two(needed) < MIN_ALLOCATION {
        MIN_ALLOCATION as nat
    } else {
        next_power_of_two(needed)
    }
}

/// The powers of two are those of arithmetic, 2 to the power of a natural number.
pub proof fn lemma_is_power_of_two(p: nat)
    ensures
        is_power_of_two(p) <==> vstd::arithmetic::power2::is_pow2(p as int),
    decreases p,
{
    reveal(vstd::arithmetic::power2::is_pow2);
    if p > 1 {
        lemma_is_power_of_two(p / 2);
    }
}

/// The capacity for `needed` elements is a power of two, is at least 4, fits them, and is the least
/// number of which all that holds.
pub proof fn lemma_reserved_capacity_least(needed: nat)
    ensures
        vstd::arithmetic::power2::is_pow2(reserved_capacity(needed) as int),
        reserved_capacity(needed) >= 4,
        reserved_capacity(needed) >= needed,
        forall|p: int| #[trigger]
            vstd::arithmetic::power2::is_pow2(p) && p >= 4 && p >= needed ==> p
                >= reserved_capacity(needed),
{
    lemma_next_power_of_two(needed);
    reveal_with_fuel(is_power_of_two, 3);
    lemma_is_power_of_two(reserved_capacity(needed));
    assert forall|p: int| #[trigger]
        vstd::arithmetic::power2::is_pow2(p) && p >= 4 && p >= needed implies p
        >= reserved_capacity(needed) by {
        lemma_is_power_of_two(p as nat);
        lemma_next_power_of_two_least(needed, p as nat);
    }
}

/// `next_power_of_two(n)` is a power of two, is not below `n`, and is below twice `n`.
pub proof fn lemma_next_power_of_two(n: nat)
    ensures
        is_power_of_two(next_power_of_two(n)),
        n <= next_power_of_two(n),
        n >= 1 ==> next_power_of_two(n) < 2 * n,
    decreases n,
{
    if n > 1 {
        lemma_next_power_of_two((n + 1) / 2);
    }
}

/// No power of two between `n` and `next_power_of_two(n)`.
pub proof fn lemma_next_power_of_two_least(n: nat, p: nat)
    requires
        is_power_of_two(p),
        n <= p,
    ensures
        next_power_of_two(n) <= p,
    decreases p,
{
    if n > 1 {
        lemma_next_power_of_two_least((n + 1) / 2, p / 2);
    }
}

/// Of two powers of two, the greater is at least twice the other.
pub proof fn lemma_power_of_two_step(a: nat, b: nat)
    requires
        is_power_of_two(a),
        is_power_of_two(b),
        a < b,
    ensures
        2 * a <= b,
    decreases b,
{
    if a > 1 {
        lemma_power_of_two_step(a / 2, b / 2);
    }
}

/// 128 is a power of two.
pub proof fn lemma_max_power()
    ensures
        is_power_of_two(MAX_POWER as nat),
{
    reveal_with_fuel(is_power_of_two, 8);
}

/// The room for `needed` elements is a capacity that a container can have exactly if `needed` is
/// at most 128, the greatest power of two that is one.
pub proof fn lemma_reserved_capacity_fits(needed: nat)
    ensures
        reserved_capacity(needed) <= MAX_CAPACITY <==> needed <= MAX_POWER,
        needed <= MAX_POWER ==> reserved_capacity(needed) <= MAX_POWER,
        needed <= reserved_capacity(needed),
{
    lemma_max_power();
    lemma_next_power_of_two(needed);
    if needed <= MAX_POWER {
        lemma_next_power_of_two_least(needed, MAX_POWER as nat);
    } else {
        lemma_power_of_two_step(MAX_POWER as nat, next_power_of_two(needed));
    }
}

/// The least power of two that is not below `n`.
pub fn round_up_to_power_of_two(n: usize) -> (p: usize)
    requires
        next_power_of_two(n as nat) <= usize::MAX,
    ensures
        p == next_power_of_two(n as nat),
{
    proof {
        lemma_next_power_of_two(n as nat);
    }
    let mut p: usize = 1;
    while p < n
        invariant
            is_power_of_two(p as nat),
            p <= next_power_of_two(n as nat),
            n <= next_power_of_two(n as nat),
            is_power_of_two(next_power_of_two(n as nat)),
            next_power_of_two(n as nat) <= usize::MAX,
        decreases next_power_of_two(n as nat) - p,
    {
        proof {
            lemma_power_of_two_step(p as nat, next_power_of_two(n as nat));
        }
        p = p * 2;
    }
    proof {
        lemma_next_power_of_two_least(n as nat, p as nat);
    }
    p
}

} // verus!
