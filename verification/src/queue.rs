//! The bounded task queue: a capacity-limited FIFO of session handles
//! (control-channel descriptors), the sole hand-off surface between the
//! reactor thread and the worker pool.  This is the queue's logic alone;
//! the blocking shell — a producer sleeping while the queue is full, a
//! consumer sleeping while it is empty — is built around it by the
//! process glue, which loops on these operations under its own lock.

use vstd::prelude::*;

verus! {

/// A fixed-capacity FIFO channel of session handles.
pub struct BlockingQueue {
    pub buf: Vec<i32>,
    pub cap: usize,
}

impl View for BlockingQueue {
    type V = Seq<i32>;

    open spec fn view(&self) -> Seq<i32> {
        self.buf@
    }
}

impl BlockingQueue {
    pub open spec fn wf(&self) -> bool {
        self@.len() <= self.cap && self.cap >= 1
    }

    /// A push is admitted exactly while a slot is free.
    pub open spec fn can_push(&self) -> bool {
        self@.len() < self.cap
    }

    pub fn new(cap: usize) -> (q: BlockingQueue)
        requires
            cap >= 1,
        ensures
            q@ == Seq::<i32>::empty(),
            q.cap == cap,
            q.wf(),
    {
        BlockingQueue { buf: Vec::new(), cap }
    }

    pub fn len(&self) -> (r: usize)
        ensures
            r == self@.len(),
    {
        self.buf.len()
    }

    pub fn is_empty(&self) -> (r: bool)
        ensures
            r == (self@.len() == 0),
    {
        self.buf.len() == 0
    }

    pub fn is_full(&self) -> (r: bool)
        ensures
            r == !self.can_push(),
    {
        self.buf.len() >= self.cap
    }

    /// Appends at the tail while a slot is free; a full queue is left
    /// unchanged and the caller told so, so that its blocking shell can
    /// wait for a consumer and try again.
    pub fn push_back(&mut self, v: i32) -> (r: bool)
        requires
            old(self).wf(),
        ensures
            final(self).wf(),
            final(self).cap == old(self).cap,
            r == old(self).can_push(),
            r ==> final(self)@ == old(self)@.push(v),
            !r ==> final(self)@ == old(self)@,
    {
        if self.buf.len() < self.cap {
            self.buf.push(v);
            true
        } else {
            false
        }
    }

    /// Takes the oldest element, or nothing from an empty queue.
    pub fn pop_front(&mut self) -> (r: Option<i32>)
        requires
            old(self).wf(),
        ensures
            final(self).wf(),
            final(self).cap == old(self).cap,
            match r {
                Some(v) => old(self)@.len() > 0 && v == old(self)@[0]
                    && final(self)@ == old(self)@.drop_first(),
                None => old(self)@.len() == 0 && final(self)@ == old(self)@,
            },
    {
        if self.buf.len() > 0 {
            let v = self.buf.remove(0);
            proof {
                assert(self.buf@ =~= old(self).buf@.drop_first());
            }
            Some(v)
        } else {
            None
        }
    }
}

/// Law: the queue is first-in first-out for a single producer.  Pushing
/// a, b and c onto an empty queue yields the view a, b, c, and the pops
/// that `pop_front` is specified against return its elements front first:
/// a, then b, then c.
pub proof fn lemma_fifo_order(a: i32, b: i32, c: i32)
    ensures
        ({
            let s = Seq::<i32>::empty().push(a).push(b).push(c);
            s[0] == a && s.drop_first()[0] == b && s.drop_first().drop_first()[0] == c
                && s.drop_first().drop_first().drop_first() == Seq::<i32>::empty()
        }),
{
    let s = Seq::<i32>::empty().push(a).push(b).push(c);
    assert(s.drop_first() =~= seq![b, c]);
    assert(s.drop_first().drop_first() =~= seq![c]);
    assert(s.drop_first().drop_first().drop_first() =~= Seq::<i32>::empty());
}

/// Law: a full queue admits nothing — `push_back` reports failure and
/// leaves it unchanged — and after a consumer pops one element the next
/// push is admitted again.  The producer sleeping between those two
/// moments is the blocking shell's duty, outside this core.
pub proof fn lemma_backpressure(q: BlockingQueue)
    requires
        q.wf(),
        q@.len() == q.cap,
    ensures
        !q.can_push(),
        forall|q2: BlockingQueue|
            q2.cap == q.cap && q2@ == q@.drop_first() ==> q2.can_push(),
{
}

} // verus!
