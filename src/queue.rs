//! The bounded first-in first-out queue that joins two pipeline stages. Blocking on a full
//! or empty queue is left to the caller, which owns the threads.
use std::collections::VecDeque;
use vstd::prelude::*;

verus! {

/// Capacity of each queue between pipeline stages.
pub const CHANNEL_BUF_SIZE: usize = 64;

/// A FIFO queue that holds at most `capacity` items.
pub struct BoundedQueue<T> {
    items: VecDeque<T>,
    capacity: usize,
}

impl<T> View for BoundedQueue<T> {
    type V = Seq<T>;

    closed spec fn view(&self) -> Seq<T> {
        self.items@
    }
}

impl<T> BoundedQueue<T> {
    /// The most items the queue holds.
    pub closed spec fn cap(&self) -> nat {
        self.capacity as nat
    }

    pub closed spec fn wf(&self) -> bool {
        self.items@.len() <= self.capacity
    }

    /// An empty queue that holds at most `capacity` items.
    pub fn new(capacity: usize) -> (r: BoundedQueue<T>)
        ensures
            r.wf(),
            r@ == Seq::<T>::empty(),
            r.cap() == capacity,
    {
        BoundedQueue { items: VecDeque::new(), capacity }
    }

    /// An empty queue of the pipeline's capacity.
    pub fn with_default_capacity() -> (r: BoundedQueue<T>)
        ensures
            r.wf(),
            r@ == Seq::<T>::empty(),
            r.cap() == CHANNEL_BUF_SIZE,
    {
        BoundedQueue::new(CHANNEL_BUF_SIZE)
    }

    pub fn len(&self) -> (r: usize)
        requires
            self.wf(),
        ensures
            r == self@.len(),
    {
        self.items.len()
    }

    pub fn is_full(&self) -> (r: bool)
        requires
            self.wf(),
        ensures
            r == (self@.len() >= self.cap()),
    {
        self.items.len() >= self.capacity
    }

    pub fn is_empty(&self) -> (r: bool)
        requires
            self.wf(),
        ensures
            r == (self@.len() == 0),
    {
        self.items.len() == 0
    }

    /// Appends `item` at the back, or hands it back when the queue is full.
    pub fn try_push(&mut self, item: T) -> (r: Result<(), T>)
        requires
            old(self).wf(),
        ensures
            final(self).wf(),
            final(self).cap() == old(self).cap(),
            old(self)@.len() < old(self).cap() ==> r is Ok && final(self)@ == old(self)@.push(
                item,
            ),
            old(self)@.len() >= old(self).cap() ==> r == Err::<(), T>(item) && final(self)@ == old(
                self,
            )@,
    {
        if self.items.len() >= self.capacity {
            Err(item)
        } else {
            self.items.push_back(item);
            Ok(())
        }
    }

    /// Takes the item at the front, the oldest one, if any.
    pub fn pop(&mut self) -> (r: Option<T>)
        requires
            old(self).wf(),
        ensures
            final(self).wf(),
            final(self).cap() == old(self).cap(),
            old(self)@.len() == 0 ==> r is None && final(self)@ == old(self)@,
            old(self)@.len() > 0 ==> r == Some(old(self)@[0]) && final(self)@ == old(
                self,
            )@.drop_first(),
    {
        self.items.pop_front()
    }
}

/// The contents after pushing `xs` in turn onto a queue holding `q`, none of them refused.
pub open spec fn pushed_all<T>(q: Seq<T>, xs: Seq<T>) -> Seq<T>
    decreases xs.len(),
{
    if xs.len() == 0 {
        q
    } else {
        pushed_all(q, xs.drop_last()).push(xs.last())
    }
}

/// The items that `n` pops take from a queue holding `q`, in the order they come out.
pub open spec fn popped<T>(q: Seq<T>, n: nat) -> Seq<T>
    decreases n,
{
    if n == 0 || q.len() == 0 {
        Seq::empty()
    } else {
        seq![q[0]].add(popped(q.drop_first(), (n - 1) as nat))
    }
}

proof fn lemma_pushed_all_is_concat<T>(q: Seq<T>, xs: Seq<T>)
    ensures
        pushed_all(q, xs) == q + xs,
    decreases xs.len(),
{
    if xs.len() > 0 {
        lemma_pushed_all_is_concat(q, xs.drop_last());
        assert(q + xs =~= (q + xs.drop_last()).push(xs.last()));
    }
}

proof fn lemma_popped_all<T>(q: Seq<T>)
    ensures
        popped(q, q.len()) == q,
    decreases q.len(),
{
    if q.len() > 0 {
        lemma_popped_all(q.drop_first());
        assert(seq![q[0]].add(q.drop_first()) =~= q);
    }
}

/// Ordering: items pushed onto an empty queue come out of it, one pop at a time, in the
/// order in which they were pushed.
pub proof fn lemma_fifo_order<T>(xs: Seq<T>)
    ensures
        popped(pushed_all(Seq::<T>::empty(), xs), xs.len()) == xs,
{
    lemma_pushed_all_is_concat(Seq::<T>::empty(), xs);
    assert(Seq::<T>::empty() + xs =~= xs);
    lemma_popped_all(xs);
}

} // verus!
