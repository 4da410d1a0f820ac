//! The ring buffer itself: a fixed array of slots and the two cursors that
//! run over it, held as one value.

use vstd::prelude::*;
use crate::ring::{cursors_ok, dequeue_step, enqueue_step, lemma_next, next, unread, QUEUE_SIZE};

verus! {

/// Where the `i`-th unread entry sits, counting from `tail`.
pub open spec fn ring_pos(tail: int, i: int, cap: int) -> int {
    if tail + i < cap {
        tail + i
    } else {
        tail + i - cap
    }
}

/// What an enqueue of `v` does to the unread entries `s` of a ring of `cap`
/// slots, and whether it succeeds.
pub open spec fn after_enqueue<T>(s: Seq<T>, v: T, cap: nat) -> (Seq<T>, bool) {
    if s.len() + 1 < cap {
        (s.push(v), true)
    } else {
        (s, false)
    }
}

/// What a dequeue does to the unread entries `s`, and what it returns.
pub open spec fn after_dequeue<T>(s: Seq<T>) -> (Seq<T>, Option<T>) {
    if s.len() == 0 {
        (s, None)
    } else {
        (s.drop_first(), Some(s[0]))
    }
}

/// A ring of slots with a producer cursor (`head`) and a consumer cursor
/// (`tail`). One slot always stays free, so `head == tail` means empty and
/// `head` just behind `tail` means full.
pub struct Ring<T> {
    slots: Vec<T>,
    head: usize,
    tail: usize,
}

impl<T> View for Ring<T> {
    /// The unread entries, oldest first.
    type V = Seq<T>;

    closed spec fn view(&self) -> Seq<T> {
        let cap = self.slots@.len() as int;
        Seq::new(
            unread(self.head as int, self.tail as int, cap) as nat,
            |i: int| self.slots@[ring_pos(self.tail as int, i, cap)],
        )
    }
}

impl<T> Ring<T> {
    /// Number of slots (one more than the number of entries it can hold).
    pub closed spec fn capacity(&self) -> nat {
        self.slots@.len()
    }

    pub closed spec fn spec_head(&self) -> int {
        self.head as int
    }

    pub closed spec fn spec_tail(&self) -> int {
        self.tail as int
    }

    pub closed spec fn spec_slot(&self, i: int) -> T {
        self.slots@[i]
    }

    /// The cursors are in range for the slot array.
    pub closed spec fn wf(&self) -> bool {
        cursors_ok(self.head as int, self.tail as int, self.slots@.len() as int)
    }

    /// What a well-formed ring is: cursors in range, and the unread entries
    /// are the slots from `tail` up to `head`, wrapping at the end.
    pub proof fn lemma_wf(&self)
        requires
            self.wf(),
        ensures
            cursors_ok(self.spec_head(), self.spec_tail(), self.capacity() as int),
            self@.len() == unread(self.spec_head(), self.spec_tail(), self.capacity() as int),
            forall|i: int|
                0 <= i < self@.len() ==> #[trigger] self@[i] == self.spec_slot(
                    ring_pos(self.spec_tail(), i, self.capacity() as int),
                ),
    {
    }

    /// `after` is `before` once an enqueue of `value` has returned `ok`.
    pub open spec fn enqueued(before: Ring<T>, after: Ring<T>, value: T, ok: bool) -> bool {
        let cap = before.capacity() as int;
        &&& after.wf()
        &&& after.capacity() == before.capacity()
        &&& (after@, ok) == after_enqueue(before@, value, before.capacity())
        &&& ok <==> before@.len() < cap - 1
        &&& ok <==> next(before.spec_head(), cap) != before.spec_tail()
        &&& after.spec_tail() == before.spec_tail()
        &&& ok ==> {
            &&& after.spec_head() == next(before.spec_head(), cap)
            &&& after.spec_slot(before.spec_head()) == value
            &&& forall|i: int|
                0 <= i < cap && i != before.spec_head() ==> #[trigger] after.spec_slot(i)
                    == before.spec_slot(i)
        }
        &&& !ok ==> after == before
    }

    /// `after` is `before` once a dequeue has returned `r`.
    pub open spec fn dequeued(before: Ring<T>, after: Ring<T>, r: Option<T>) -> bool {
        let cap = before.capacity() as int;
        &&& after.wf()
        &&& after.capacity() == before.capacity()
        &&& (after@, r) == after_dequeue(before@)
        &&& r is None <==> before.spec_head() == before.spec_tail()
        &&& after.spec_head() == before.spec_head()
        &&& forall|i: int| 0 <= i < cap ==> #[trigger] after.spec_slot(i) == before.spec_slot(i)
        &&& r is Some ==> {
            &&& r == Some(before.spec_slot(before.spec_tail()))
            &&& after.spec_tail() == next(before.spec_tail(), cap)
        }
        &&& r is None ==> after == before
    }
}

impl<T: Copy + Default> Ring<T> {
    /// Every slot holds `T`'s default value and both cursors are at zero.
    pub open spec fn is_fresh(&self, capacity: nat) -> bool {
        &&& self.wf()
        &&& self.capacity() == capacity
        &&& self.spec_head() == 0
        &&& self.spec_tail() == 0
        &&& self@ == Seq::<T>::empty()
        &&& forall|i: int| 0 <= i < capacity ==> #[trigger] self.spec_slot(i) == self.spec_slot(0)
        &&& forall|i: int|
            0 <= i < capacity ==> call_ensures(T::default, (), #[trigger] self.spec_slot(i))
    }

    /// A ring of `QUEUE_SIZE` slots.
    pub fn new() -> (r: Ring<T>)
        ensures
            r.is_fresh(QUEUE_SIZE as nat),
    {
        Self::with_capacity(QUEUE_SIZE)
    }

    /// A ring of `capacity` slots, every slot holding `T`'s default value
    /// and both cursors at zero.
    pub fn with_capacity(capacity: usize) -> (r: Ring<T>)
        requires
            2 <= capacity,
        ensures
            r.is_fresh(capacity as nat),
    {
        let zero = T::default();
        let mut slots: Vec<T> = Vec::with_capacity(capacity);
        let mut k: usize = 0;
        while k < capacity
            invariant
                k <= capacity,
                slots@.len() == k,
                forall|i: int| 0 <= i < k ==> slots@[i] == zero,
            decreases capacity - k,
        {
            slots.push(zero);
            k = k + 1;
        }
        let r = Ring { slots, head: 0, tail: 0 };
        assert(r@ =~= Seq::<T>::empty());
        r
    }

    /// A ring with no slots, to stand in while a real one is out on loan.
    pub(crate) fn placeholder() -> Ring<T> {
        Ring { slots: Vec::new(), head: 0, tail: 0 }
    }

    /// Current producer cursor.
    pub fn head(&self) -> (r: usize)
        requires
            self.wf(),
        ensures
            r == self.spec_head(),
            r < self.capacity(),
    {
        self.head
    }

    /// Current consumer cursor.
    pub fn tail(&self) -> (r: usize)
        requires
            self.wf(),
        ensures
            r == self.spec_tail(),
            r < self.capacity(),
    {
        self.tail
    }

    /// Number of slots.
    pub fn len_slots(&self) -> (r: usize)
        ensures
            r == self.capacity(),
    {
        self.slots.len()
    }

    /// What slot `i` holds, read or not.
    pub fn slot(&self, i: usize) -> (r: T)
        requires
            i < self.capacity(),
        ensures
            r == self.spec_slot(i as int),
    {
        self.slots[i]
    }

    /// Writes `value` into slot `head` and advances `head`, unless the ring
    /// is full. On failure nothing changes.
    pub fn enqueue(&mut self, value: T) -> (ok: bool)
        requires
            old(self).wf(),
        ensures
            Ring::enqueued(*old(self), *final(self), value, ok),
    {
        let cap = self.slots.len();
        match enqueue_step(self.head, self.tail, cap) {
            None => false,
            Some(n) => {
                proof {
                    lemma_next(self.head as int, cap as int);
                }
                let ghost before = self@;
                self.slots.set(self.head, value);
                self.head = n;
                assert(self@ =~= before.push(value));
                true
            },
        }
    }

    /// Reads slot `tail` and advances `tail`, or `None` when the ring is
    /// empty. The slots are left as they were.
    pub fn dequeue(&mut self) -> (r: Option<T>)
        requires
            old(self).wf(),
        ensures
            Ring::dequeued(*old(self), *final(self), r),
    {
        let cap = self.slots.len();
        match dequeue_step(self.head, self.tail, cap) {
            None => None,
            Some(n) => {
                proof {
                    lemma_next(self.tail as int, cap as int);
                }
                let ghost before = self@;
                let v = self.slots[self.tail];
                self.tail = n;
                assert(self@ =~= before.drop_first());
                Some(v)
            },
        }
    }
}

} // verus!
