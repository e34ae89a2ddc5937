//! The queue behind a named receiver: it turns a subscription's stream into
//! a bounded FIFO queue that a host thread can poll or block on.
//!
//! The producer offers each message it pops from the subscription; a message
//! that finds the queue full is dropped (at most once delivery). When the
//! subscription ends, the producer closes the queue; consumers then drain what
//! is left and see the end after that.

use vstd::prelude::*;

verus! {

pub struct DeliveryView<T> {
    pub items: Seq<T>,
    pub capacity: nat,
    pub closed: bool,
}

/// What a consumer gets from one look at the queue.
pub enum RecvStep<T> {
    Item(T),
    /// Nothing is queued yet; the producer is still running.
    Wait,
    /// Nothing is queued and nothing more will come.
    Closed,
}

pub struct DeliveryQueue<T> {
    items: std::collections::VecDeque<T>,
    capacity: usize,
    closed: bool,
}

impl<T> View for DeliveryQueue<T> {
    type V = DeliveryView<T>;

    closed spec fn view(&self) -> DeliveryView<T> {
        DeliveryView { items: self.items@, capacity: self.capacity as nat, closed: self.closed }
    }
}

impl<T> DeliveryQueue<T> {
    pub open spec fn wf(&self) -> bool {
        self@.items.len() <= self@.capacity
    }

    pub fn new(capacity: usize) -> (r: DeliveryQueue<T>)
        ensures
            r.wf(),
            r@.items == Seq::<T>::empty(),
            r@.capacity == capacity as nat,
            !r@.closed,
    {
        DeliveryQueue { items: std::collections::VecDeque::new(), capacity, closed: false }
    }

    pub fn len(&self) -> (r: usize)
        ensures
            r == self@.items.len(),
    {
        self.items.len()
    }

    pub fn is_closed(&self) -> (r: bool)
        ensures
            r == self@.closed,
    {
        self.closed
    }

    /// Queues `item` when the queue is open and has room; otherwise drops it.
    /// Returns whether it was queued.
    pub fn offer(&mut self, item: T) -> (queued: bool)
        requires
            old(self).wf(),
        ensures
            final(self).wf(),
            queued == (!old(self)@.closed && old(self)@.items.len() < old(self)@.capacity),
            queued ==> final(self)@ == (DeliveryView {
                items: old(self)@.items.push(item),
                ..old(self)@
            }),
            !queued ==> final(self)@ == old(self)@,
    {
        if !self.closed && self.items.len() < self.capacity {
            self.items.push_back(item);
            true
        } else {
            false
        }
    }

    /// Takes the oldest queued item, if any, without waiting.
    pub fn try_recv(&mut self) -> (r: Option<T>)
        requires
            old(self).wf(),
        ensures
            final(self).wf(),
            old(self)@.items.len() == 0 ==> r is None && final(self)@ == old(self)@,
            old(self)@.items.len() > 0 ==> r == Some(old(self)@.items[0]) && final(self)@ == (
            DeliveryView { items: old(self)@.items.drop_first(), ..old(self)@ }),
    {
        let r = self.items.pop_front();
        proof {
            if old(self)@.items.len() > 0 {
                assert(self.items@ =~= old(self)@.items.drop_first());
            }
        }
        r
    }

    /// One look by a blocking consumer: the oldest item, or wait, or the end.
    pub fn recv_step(&mut self) -> (r: RecvStep<T>)
        requires
            old(self).wf(),
        ensures
            final(self).wf(),
            old(self)@.items.len() > 0 ==> r == RecvStep::Item(old(self)@.items[0])
                && final(self)@ == (DeliveryView {
                items: old(self)@.items.drop_first(),
                ..old(self)@
            }),
            old(self)@.items.len() == 0 ==> final(self)@ == old(self)@ && (r is Wait
                <==> !old(self)@.closed) && (r is Closed <==> old(self)@.closed),
    {
        match self.try_recv() {
            Some(x) => RecvStep::Item(x),
            None => if self.closed {
                RecvStep::Closed
            } else {
                RecvStep::Wait
            },
        }
    }

    /// The producer is done: nothing more will be queued.
    pub fn close(&mut self)
        requires
            old(self).wf(),
        ensures
            final(self).wf(),
            final(self)@ == (DeliveryView { closed: true, ..old(self)@ }),
    {
        self.closed = true;
    }
}

} // verus!
