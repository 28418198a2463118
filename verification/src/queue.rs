//! The outbound queue: a bounded FIFO of envelopes.
//!
//! The queue decouples the submitting caller from the network task. Its
//! capacity is fixed at construction; enqueue order equals dequeue order, and
//! each envelope is enqueued completely or not at all.

use vstd::prelude::*;
use crate::envelope::Envelope;

verus! {

/// A bounded FIFO of envelopes with capacity fixed at construction.
pub struct OutboundQueue {
    items: Vec<Envelope>,
    capacity: usize,
}

impl View for OutboundQueue {
    type V = Seq<Envelope>;

    /// The queued envelopes, oldest first.
    closed spec fn view(&self) -> Seq<Envelope> {
        self.items@
    }
}

impl OutboundQueue {
    /// The capacity the queue was constructed with.
    pub closed spec fn capacity(self) -> nat {
        self.capacity as nat
    }

    /// A queue is well-formed when it never holds more than its capacity,
    /// and its capacity is positive.
    pub open spec fn wf(self) -> bool {
        self@.len() <= self.capacity() && self.capacity() >= 1
    }

    /// Creates an empty queue of the given capacity.
    pub fn new(capacity: usize) -> (q: OutboundQueue)
        requires
            capacity >= 1,
        ensures
            q.wf(),
            q@ == Seq::<Envelope>::empty(),
            q.capacity() == capacity,
    {
        OutboundQueue { items: Vec::new(), capacity }
    }

    /// How many envelopes are queued.
    pub fn len(&self) -> (n: usize)
        ensures
            n == self@.len(),
    {
        self.items.len()
    }

    /// Whether the queue is at capacity, so that an enqueue must wait.
    pub fn is_full(&self) -> (b: bool)
        ensures
            b == (self@.len() == self.capacity()),
    {
        self.items.len() == self.capacity
    }

    /// Whether the queue holds no envelope.
    pub fn is_empty(&self) -> (b: bool)
        ensures
            b == (self@.len() == 0),
    {
        self.items.len() == 0
    }

    /// Appends one envelope at the back. The enqueue is complete: no partial
    /// envelope is ever queued.
    pub fn enqueue(&mut self, e: Envelope)
        requires
            old(self).wf(),
            old(self)@.len() < old(self).capacity(),
        ensures
            final(self).wf(),
            final(self)@ == old(self)@.push(e),
            final(self).capacity() == old(self).capacity(),
    {
        self.items.push(e);
    }

    /// Removes and returns the oldest envelope: delivery order equals
    /// enqueue order.
    pub fn dequeue(&mut self) -> (e: Envelope)
        requires
            old(self).wf(),
            old(self)@.len() > 0,
        ensures
            final(self).wf(),
            e == old(self)@[0],
            final(self)@ == old(self)@.subrange(1, old(self)@.len() as int),
            final(self).capacity() == old(self).capacity(),
    {
        self.items.remove(0)
    }
}

} // verus!
