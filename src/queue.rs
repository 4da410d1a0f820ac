//! Named rings and the handles that reach them. Every handle attached under
//! one name reaches one ring, so a producer handle and a consumer handle
//! made apart from each other see one state.

use vstd::prelude::*;
use crate::buffer::Ring;
use crate::ring::QUEUE_SIZE;

verus! {

/// A table of rings, each under its own name.
pub struct Regions<T> {
    names: Vec<String>,
    rings: Vec<Ring<T>>,
}

impl<T> Regions<T> {
    /// Number of named rings.
    pub closed spec fn spec_len(&self) -> nat {
        self.names@.len()
    }

    pub closed spec fn spec_name(&self, i: int) -> Seq<char> {
        self.names@[i]@
    }

    pub closed spec fn spec_ring(&self, i: int) -> Ring<T> {
        self.rings@[i]
    }

    /// A ring under `name` exists.
    pub open spec fn has(&self, name: Seq<char>) -> bool {
        exists|i: int| 0 <= i < self.spec_len() && #[trigger] self.spec_name(i) == name
    }

    /// One ring per name, each well formed, of `QUEUE_SIZE` slots.
    pub closed spec fn wf(&self) -> bool {
        &&& self.names@.len() == self.rings@.len()
        &&& forall|i: int|
            0 <= i < self.rings@.len() ==> (#[trigger] self.rings@[i]).wf()
                && self.rings@[i].capacity() == QUEUE_SIZE
        &&& forall|i: int, j: int|
            0 <= i < self.names@.len() && 0 <= j < self.names@.len() && i != j
                ==> #[trigger] self.names@[i]@ != #[trigger] self.names@[j]@
    }

    /// What a well-formed table is.
    pub proof fn lemma_wf(&self)
        requires
            self.wf(),
        ensures
            forall|i: int|
                0 <= i < self.spec_len() ==> (#[trigger] self.spec_ring(i)).wf()
                    && self.spec_ring(i).capacity() == QUEUE_SIZE,
            forall|i: int, j: int|
                0 <= i < self.spec_len() && 0 <= j < self.spec_len() && i != j
                    ==> #[trigger] self.spec_name(i) != #[trigger] self.spec_name(j),
    {
    }

    /// `after` differs from `before` in ring `k` at most.
    pub open spec fn only_ring_changed(before: Regions<T>, after: Regions<T>, k: int) -> bool {
        &&& after.wf()
        &&& after.spec_len() == before.spec_len()
        &&& forall|i: int| 0 <= i < before.spec_len() ==> #[trigger] after.spec_name(i) == before.spec_name(i)
        &&& forall|i: int|
            0 <= i < before.spec_len() && i != k ==> #[trigger] after.spec_ring(i) == before.spec_ring(i)
    }
}

impl<T: Copy + Default> Regions<T> {
    /// A table with no rings.
    pub fn new() -> (r: Regions<T>)
        ensures
            r.wf(),
            r.spec_len() == 0,
    {
        Regions { names: Vec::new(), rings: Vec::new() }
    }

    /// The place of the ring under `name`, if there is one.
    fn find(&self, name: &String) -> (r: Option<usize>)
        requires
            self.wf(),
        ensures
            r is None <==> !self.has(name@),
            r matches Some(i) ==> i < self.spec_len() && self.spec_name(i as int) == name@,
    {
        let mut i: usize = 0;
        while i < self.names.len()
            invariant
                i <= self.names@.len(),
                forall|j: int| 0 <= j < i ==> self.spec_name(j) != name@,
            decreases self.names@.len() - i,
        {
            if self.names[i] == *name {
                assert(self.spec_name(i as int) == name@);
                return Some(i);
            }
            i = i + 1;
        }
        None
    }
}

/// A handle on one named ring of a `Regions` table.
#[derive(Clone, Copy, PartialEq, Eq, Structural, Debug)]
pub struct Queue {
    index: usize,
}

impl Queue {
    pub closed spec fn spec_index(&self) -> int {
        self.index as int
    }

    /// The handle reaches a ring of `regions`.
    pub open spec fn attached<T>(&self, regions: Regions<T>) -> bool {
        regions.wf() && 0 <= self.spec_index() < regions.spec_len()
    }

    /// The ring the handle reaches.
    pub open spec fn ring<T>(&self, regions: Regions<T>) -> Ring<T> {
        regions.spec_ring(self.spec_index())
    }

    /// Attaches to the ring under `name`, creating it, fresh, when there is
    /// none. Rings already there are left as they are.
    pub fn new<T: Copy + Default>(regions: &mut Regions<T>, name: &str) -> (q: Queue)
        requires
            old(regions).wf(),
        ensures
            q.attached(*final(regions)),
            final(regions).spec_name(q.spec_index()) == name@,
            forall|i: int|
                0 <= i < old(regions).spec_len() ==> #[trigger] final(regions).spec_name(i)
                    == old(regions).spec_name(i) && final(regions).spec_ring(i)
                    == old(regions).spec_ring(i),
            old(regions).has(name@) ==> final(regions).spec_len() == old(regions).spec_len(),
            !old(regions).has(name@) ==> {
                &&& final(regions).spec_len() == old(regions).spec_len() + 1
                &&& q.spec_index() == old(regions).spec_len()
                &&& q.ring(*final(regions)).is_fresh(QUEUE_SIZE as nat)
            },
    {
        let key = name.to_owned();
        match regions.find(&key) {
            Some(i) => Queue { index: i },
            None => {
                let ghost before = *regions;
                let i = regions.names.len();
                regions.names.push(key);
                regions.rings.push(Ring::new());
                proof {
                    assert(regions.names@[i as int]@ == name@);
                    assert forall|a: int, b: int|
                        0 <= a < regions.names@.len() && 0 <= b < regions.names@.len() && a
                            != b implies #[trigger] regions.names@[a]@
                        != #[trigger] regions.names@[b]@ by {
                        if a < i && b < i {
                            assert(regions.names@[a] == before.names@[a]);
                            assert(regions.names@[b] == before.names@[b]);
                        } else if a == i {
                            assert(regions.names@[b] == before.names@[b]);
                            assert(before.spec_name(b) != name@);
                        } else {
                            assert(regions.names@[a] == before.names@[a]);
                            assert(before.spec_name(a) != name@);
                        }
                    }
                    assert forall|k: int| 0 <= k < regions.rings@.len() implies (
                    #[trigger] regions.rings@[k]).wf() && regions.rings@[k].capacity()
                        == QUEUE_SIZE by {
                        if k < i {
                            assert(regions.rings@[k] == before.rings@[k]);
                        }
                    }
                }
                Queue { index: i }
            },
        }
    }

    /// Enqueues `value` on the ring the handle reaches.
    pub fn enqueue<T: Copy + Default>(&self, regions: &mut Regions<T>, value: T) -> (ok: bool)
        requires
            self.attached(*old(regions)),
        ensures
            Regions::only_ring_changed(*old(regions), *final(regions), self.spec_index()),
            Ring::enqueued(self.ring(*old(regions)), self.ring(*final(regions)), value, ok),
    {
        let mut ring = Ring::placeholder();
        regions.rings.set_and_swap(self.index, &mut ring);
        let ok = ring.enqueue(value);
        regions.rings.set_and_swap(self.index, &mut ring);
        ok
    }

    /// Dequeues from the ring the handle reaches.
    pub fn dequeue<T: Copy + Default>(&self, regions: &mut Regions<T>) -> (r: Option<T>)
        requires
            self.attached(*old(regions)),
        ensures
            Regions::only_ring_changed(*old(regions), *final(regions), self.spec_index()),
            Ring::dequeued(self.ring(*old(regions)), self.ring(*final(regions)), r),
    {
        let mut ring = Ring::placeholder();
        regions.rings.set_and_swap(self.index, &mut ring);
        let r = ring.dequeue();
        regions.rings.set_and_swap(self.index, &mut ring);
        r
    }

    /// The producer cursor of the ring the handle reaches.
    pub fn head<T: Copy + Default>(&self, regions: &Regions<T>) -> (r: usize)
        requires
            self.attached(*regions),
        ensures
            r == self.ring(*regions).spec_head(),
            r < QUEUE_SIZE,
    {
        regions.rings[self.index].head()
    }

    /// The consumer cursor of the ring the handle reaches.
    pub fn tail<T: Copy + Default>(&self, regions: &Regions<T>) -> (r: usize)
        requires
            self.attached(*regions),
        ensures
            r == self.ring(*regions).spec_tail(),
            r < QUEUE_SIZE,
    {
        regions.rings[self.index].tail()
    }

    /// Number of slots of the ring the handle reaches.
    pub fn len_slots<T: Copy + Default>(&self, regions: &Regions<T>) -> (r: usize)
        requires
            self.attached(*regions),
        ensures
            r == QUEUE_SIZE,
    {
        regions.rings[self.index].len_slots()
    }

    /// What slot `i` of the ring the handle reaches holds.
    pub fn slot<T: Copy + Default>(&self, regions: &Regions<T>, i: usize) -> (r: T)
        requires
            self.attached(*regions),
            i < QUEUE_SIZE,
        ensures
            r == self.ring(*regions).spec_slot(i as int),
    {
        regions.rings[self.index].slot(i)
    }
}

/// Handles attached under one name are one handle: they reach one ring, so
/// what one enqueues the other dequeues.
pub proof fn lemma_one_ring_per_name<T>(regions: Regions<T>, a: Queue, b: Queue)
    requires
        a.attached(regions),
        b.attached(regions),
        regions.spec_name(a.spec_index()) == regions.spec_name(b.spec_index()),
    ensures
        a == b,
        a.ring(regions) == b.ring(regions),
{
}

} // verus!
