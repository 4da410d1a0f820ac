//! Laws of the ring over runs of several operations, stated over the same
//! model functions that `Queue::enqueue` and `Queue::dequeue` are held to.

use vstd::prelude::*;
use crate::buffer::{after_dequeue, after_enqueue};

verus! {

/// Enqueues each of `vals` in turn on unread entries `s`: the entries left,
/// and for each value whether its enqueue succeeded.
pub open spec fn enqueue_all<T>(s: Seq<T>, vals: Seq<T>, cap: nat) -> (Seq<T>, Seq<bool>)
    decreases vals.len(),
{
    if vals.len() == 0 {
        (s, Seq::empty())
    } else {
        let (s1, ok) = after_enqueue(s, vals[0], cap);
        let (s2, oks) = enqueue_all(s1, vals.drop_first(), cap);
        (s2, seq![ok] + oks)
    }
}

/// Dequeues `n` times from unread entries `s`: what each dequeue returned,
/// and the entries left.
pub open spec fn dequeue_n<T>(s: Seq<T>, n: nat) -> (Seq<Option<T>>, Seq<T>)
    decreases n,
{
    if n == 0 {
        (Seq::empty(), s)
    } else {
        let (s1, out) = after_dequeue(s);
        let (outs, s2) = dequeue_n(s1, (n - 1) as nat);
        (seq![out] + outs, s2)
    }
}

/// While they fit, enqueues append in order and all succeed.
pub proof fn lemma_enqueue_all_appends<T>(s: Seq<T>, vals: Seq<T>, cap: nat)
    requires
        s.len() + vals.len() < cap,
    ensures
        enqueue_all(s, vals, cap).0 == s + vals,
        enqueue_all(s, vals, cap).1 == Seq::new(vals.len(), |i: int| true),
    decreases vals.len(),
{
    if vals.len() > 0 {
        lemma_enqueue_all_appends(s.push(vals[0]), vals.drop_first(), cap);
        assert(s.push(vals[0]) + vals.drop_first() =~= s + vals);
        assert(seq![true] + Seq::new(vals.drop_first().len(), |i: int| true) =~= Seq::new(
            vals.len(),
            |i: int| true,
        ));
    } else {
        assert(s + vals =~= s);
        assert(Seq::<bool>::empty() =~= Seq::new(0, |i: int| true));
    }
}

/// Dequeuing as many times as there are entries returns each of them,
/// oldest first, and leaves the ring empty.
pub proof fn lemma_dequeue_all<T>(s: Seq<T>)
    ensures
        dequeue_n(s, s.len()).0 == s.map_values(|v: T| Some(v)),
        dequeue_n(s, s.len()).1 == Seq::<T>::empty(),
    decreases s.len(),
{
    if s.len() > 0 {
        lemma_dequeue_all(s.drop_first());
        assert(seq![Some(s[0])] + s.drop_first().map_values(|v: T| Some(v)) =~= s.map_values(
            |v: T| Some(v),
        ));
    } else {
        assert(s.map_values(|v: T| Some(v)) =~= Seq::empty());
        assert(s =~= Seq::<T>::empty());
    }
}

/// First in, first out: on an empty ring of `cap` slots, enqueuing fewer
/// than `cap` values and then dequeuing as many times returns exactly those
/// values in the order they went in, and every enqueue succeeds.
pub proof fn lemma_fifo<T>(vals: Seq<T>, cap: nat)
    requires
        vals.len() < cap,
    ensures
        enqueue_all(Seq::<T>::empty(), vals, cap).1 == Seq::new(vals.len(), |i: int| true),
        dequeue_n(enqueue_all(Seq::<T>::empty(), vals, cap).0, vals.len()).0
            == vals.map_values(|v: T| Some(v)),
{
    lemma_enqueue_all_appends(Seq::<T>::empty(), vals, cap);
    assert(Seq::<T>::empty() + vals =~= vals);
    lemma_dequeue_all(vals);
}

/// A ring of `cap` slots holds exactly `cap - 1` entries: from empty,
/// `cap - 1` enqueues succeed, one more fails, and after one dequeue an
/// enqueue succeeds again.
pub proof fn lemma_usable_capacity<T>(vals: Seq<T>, extra: T, cap: nat)
    requires
        2 <= cap,
        vals.len() == cap - 1,
    ensures
        enqueue_all(Seq::<T>::empty(), vals, cap).1 == Seq::new(vals.len(), |i: int| true),
        !after_enqueue(enqueue_all(Seq::<T>::empty(), vals, cap).0, extra, cap).1,
        after_enqueue(after_dequeue(enqueue_all(Seq::<T>::empty(), vals, cap).0).0, extra, cap).1,
{
    lemma_enqueue_all_appends(Seq::<T>::empty(), vals, cap);
    assert(Seq::<T>::empty() + vals =~= vals);
}

} // verus!
