use vstd::prelude::*;
use std::collections::VecDeque;
use crate::types::ElusivError;

verus! {

/// A first-in first-out admission buffer whose capacity is fixed at construction.
pub struct BoundedQueue<T> {
    items: VecDeque<T>,
    capacity: usize,
}

impl<T> View for BoundedQueue<T> {
    type V = Seq<T>;

    /// The queued items, oldest first.
    closed spec fn view(&self) -> Seq<T> {
        self.items@
    }
}

impl<T> BoundedQueue<T> {
    pub closed spec fn spec_capacity(&self) -> nat {
        self.capacity as nat
    }

    pub open spec fn wf(&self) -> bool {
        self@.len() <= self.spec_capacity()
    }

    pub fn new(capacity: usize) -> (q: Self)
        ensures
            q@ == Seq::<T>::empty(),
            q.spec_capacity() == capacity,
            q.wf(),
    {
        BoundedQueue { items: VecDeque::new(), capacity }
    }

    pub fn capacity(&self) -> (r: usize)
        ensures
            r == self.spec_capacity(),
    {
        self.capacity
    }

    pub fn len(&self) -> (r: usize)
        ensures
            r == self@.len(),
    {
        self.items.len()
    }

    pub fn is_empty(&self) -> (r: bool)
        ensures
            r == (self@.len() == 0),
    {
        self.items.len() == 0
    }

    pub fn is_full(&self) -> (r: bool)
        requires
            self.wf(),
        ensures
            r == (self@.len() == self.spec_capacity()),
    {
        self.items.len() >= self.capacity
    }

    /// The oldest item, if any, left in place.
    pub fn first(&self) -> (r: Option<&T>)
        ensures
            r is Some <==> self@.len() > 0,
            r is Some ==> *r->0 == self@[0],
    {
        if self.items.len() == 0 {
            None
        } else {
            Some(&self.items[0])
        }
    }

    /// Appends `item` at the tail, or fails with `QueueFull` and leaves the queue as it was.
    pub fn enqueue(&mut self, item: T) -> (r: Result<(), ElusivError>)
        requires
            old(self).wf(),
        ensures
            final(self).wf(),
            final(self).spec_capacity() == old(self).spec_capacity(),
            final(self)@ == enqueued(old(self)@, old(self).spec_capacity(), item),
            r is Err <==> old(self)@.len() == old(self).spec_capacity(),
            r is Err ==> r == Err::<(), ElusivError>(ElusivError::QueueFull),
    {
        if self.items.len() >= self.capacity {
            return Err(ElusivError::QueueFull);
        }
        self.items.push_back(item);
        Ok(())
    }

    /// Removes and returns the oldest item, or fails with `QueueEmpty`.
    pub fn dequeue_first(&mut self) -> (r: Result<T, ElusivError>)
        requires
            old(self).wf(),
        ensures
            final(self).wf(),
            final(self).spec_capacity() == old(self).spec_capacity(),
            final(self)@ == dequeued(old(self)@),
            r is Err <==> old(self)@.len() == 0,
            r is Err ==> r == Err::<T, ElusivError>(ElusivError::QueueEmpty),
            r is Ok ==> r == Ok::<T, ElusivError>(old(self)@[0]),
    {
        match self.items.pop_front() {
            Some(item) => Ok(item),
            None => Err(ElusivError::QueueEmpty),
        }
    }
}

/// The queue's contents after an enqueue on a queue of capacity `cap`.
pub open spec fn enqueued<T>(s: Seq<T>, cap: nat, item: T) -> Seq<T> {
    if s.len() < cap {
        s.push(item)
    } else {
        s
    }
}

/// The queue's contents after a dequeue.
pub open spec fn dequeued<T>(s: Seq<T>) -> Seq<T> {
    if s.len() == 0 {
        s
    } else {
        s.drop_first()
    }
}

/// Enqueues each of `items` in turn; gives the contents and the number admitted.
pub open spec fn enqueue_all<T>(s: Seq<T>, cap: nat, items: Seq<T>) -> (Seq<T>, nat)
    decreases items.len(),
{
    if items.len() == 0 {
        (s, 0)
    } else {
        let rest = enqueue_all(enqueued(s, cap, items[0]), cap, items.drop_first());
        (rest.0, rest.1 + if s.len() < cap { 1nat } else { 0nat })
    }
}

/// Dequeues `n` times; gives what came out, oldest first.
pub open spec fn dequeue_n<T>(s: Seq<T>, n: nat) -> Seq<T>
    decreases n,
{
    if n == 0 || s.len() == 0 {
        Seq::empty()
    } else {
        seq![s[0]].add(dequeue_n(s.drop_first(), (n - 1) as nat))
    }
}

proof fn lemma_enqueue_all_fits<T>(s: Seq<T>, cap: nat, items: Seq<T>)
    requires
        s.len() + items.len() <= cap,
    ensures
        enqueue_all(s, cap, items) == (s.add(items), items.len()),
    decreases items.len(),
{
    if items.len() > 0 {
        lemma_enqueue_all_fits(s.push(items[0]), cap, items.drop_first());
        assert(s.push(items[0]).add(items.drop_first()) =~= s.add(items));
    } else {
        assert(s.add(items) =~= s);
    }
}

proof fn lemma_enqueue_all_full<T>(s: Seq<T>, cap: nat, items: Seq<T>)
    requires
        s.len() == cap,
    ensures
        enqueue_all(s, cap, items) == (s, 0nat),
    decreases items.len(),
{
    if items.len() > 0 {
        lemma_enqueue_all_full(s, cap, items.drop_first());
    }
}

proof fn lemma_dequeue_n_all<T>(s: Seq<T>)
    ensures
        dequeue_n(s, s.len()) == s,
    decreases s.len(),
{
    if s.len() > 0 {
        lemma_dequeue_n_all(s.drop_first());
        assert(seq![s[0]].add(s.drop_first()) =~= s);
    }
}

/// What is left after `n` dequeues.
pub open spec fn dequeue_rest<T>(s: Seq<T>, n: nat) -> Seq<T>
    decreases n,
{
    if n == 0 {
        s
    } else {
        dequeue_rest(dequeued(s), (n - 1) as nat)
    }
}

/// On an empty queue of capacity `cap`, enqueuing `cap` items and one more admits
/// exactly the first `cap`; dequeuing `cap` times then returns them in insertion
/// order and leaves the queue empty, so a further dequeue fails.
pub proof fn lemma_fifo_capacity<T>(items: Seq<T>, extra: T, cap: nat)
    requires
        items.len() == cap,
    ensures
        enqueue_all(Seq::empty(), cap, items.push(extra)) == (items, cap),
        dequeue_n(items, cap) == items,
        dequeue_rest(items, cap).len() == 0,
{
    lemma_enqueue_all_fits(Seq::<T>::empty(), cap, items);
    assert(Seq::<T>::empty().add(items) =~= items);
    lemma_enqueue_all_split(Seq::<T>::empty(), cap, items, extra);
    lemma_enqueue_all_full(items, cap, seq![extra]);
    lemma_dequeue_n_all(items);
    lemma_dequeue_rest_all(items);
}

proof fn lemma_enqueue_all_split<T>(s: Seq<T>, cap: nat, items: Seq<T>, extra: T)
    ensures
        enqueue_all(s, cap, items.push(extra)) == ({
            let a = enqueue_all(s, cap, items);
            let b = enqueue_all(a.0, cap, seq![extra]);
            (b.0, a.1 + b.1)
        }),
    decreases items.len(),
{
    if items.len() > 0 {
        assert(items.push(extra).drop_first() =~= items.drop_first().push(extra));
        lemma_enqueue_all_split(enqueued(s, cap, items[0]), cap, items.drop_first(), extra);
    } else {
        assert(items.push(extra) =~= seq![extra]);
    }
}

proof fn lemma_dequeue_rest_all<T>(s: Seq<T>)
    ensures
        dequeue_rest(s, s.len()).len() == 0,
    decreases s.len(),
{
    if s.len() > 0 {
        lemma_dequeue_rest_all(s.drop_first());
    }
}

} // verus!
