//! The cursor protocol of the ring: which moves `head` and `tail` make, and
//! when a move is allowed.

use vstd::prelude::*;

verus! {

/// Number of slots of a queue placed in a shared region.
pub const QUEUE_SIZE: usize = 1024;

/// The cursor that follows `i` in a ring of `cap` slots.
pub open spec fn next(i: int, cap: int) -> int {
    (i + 1) % cap
}

/// How many written entries wait between `tail` and `head`.
pub open spec fn unread(head: int, tail: int, cap: int) -> int {
    if head >= tail {
        head - tail
    } else {
        head + cap - tail
    }
}

/// Both cursors point into a ring of `cap` slots, and the ring can tell
/// empty from full.
pub open spec fn cursors_ok(head: int, tail: int, cap: int) -> bool {
    2 <= cap && 0 <= head < cap && 0 <= tail < cap
}

/// Stepping a cursor moves it by one, and past the last slot back to zero.
pub proof fn lemma_next(i: int, cap: int)
    requires
        0 <= i < cap,
    ensures
        next(i, cap) == if i + 1 == cap { 0 } else { i + 1 },
{
    if i + 1 == cap {
        assert(cap % cap == 0) by (nonlinear_arith)
            requires
                cap > 0,
        ;
    } else {
        vstd::arithmetic::div_mod::lemma_small_mod((i + 1) as nat, cap as nat);
    }
}

/// The cursor after `i`, wrapping at `cap`.
pub fn next_index(i: usize, cap: usize) -> (r: usize)
    requires
        i < cap,
    ensures
        r == next(i as int, cap as int),
        r < cap,
{
    proof {
        lemma_next(i as int, cap as int);
    }
    if i + 1 == cap {
        0
    } else {
        i + 1
    }
}

/// Producer side: `Some(next)` when the slot at `head` may be written and
/// `next` then published as the new head; `None` when the ring is full.
pub fn enqueue_step(head: usize, tail: usize, cap: usize) -> (r: Option<usize>)
    requires
        cursors_ok(head as int, tail as int, cap as int),
    ensures
        r is None <==> next(head as int, cap as int) == tail,
        r is None <==> unread(head as int, tail as int, cap as int) == cap - 1,
        r matches Some(n) ==> n == next(head as int, cap as int),
{
    proof {
        lemma_next(head as int, cap as int);
    }
    let n = next_index(head, cap);
    if n == tail {
        None
    } else {
        Some(n)
    }
}

/// Consumer side: `Some(next)` when the slot at `tail` holds an unread
/// entry and `next` is to be published as the new tail after reading it;
/// `None` when the ring is empty.
pub fn dequeue_step(head: usize, tail: usize, cap: usize) -> (r: Option<usize>)
    requires
        cursors_ok(head as int, tail as int, cap as int),
    ensures
        r is None <==> head == tail,
        r is None <==> unread(head as int, tail as int, cap as int) == 0,
        r matches Some(n) ==> n == next(tail as int, cap as int),
{
    if head == tail {
        None
    } else {
        Some(next_index(tail, cap))
    }
}

} // verus!
