//! The queue behind a named sender: a capacity-bounded publisher.
//!
//! Callers enqueue messages; one background publisher takes them out in FIFO
//! order and publishes them one at a time. Each accepted `try_send` holds one
//! of `capacity` permits until the publisher reports that its message was
//! published, which bounds the number of messages not yet published.

use vstd::prelude::*;

verus! {

/// A message waiting for the publisher.
pub struct QueuedMessage {
    /// Topic that overrides the sender's default one.
    pub topic: Option<String>,
    pub payload: Vec<u8>,
    /// Whether the message holds a permit.
    pub permit: bool,
}

/// The state of a sender queue, as a mathematical value.
pub struct SenderView {
    pub topic: Seq<char>,
    pub capacity: nat,
    /// Permits held by queued messages and by the message being published.
    pub in_use: nat,
    pub queue: Seq<QueuedMessage>,
    /// `Some(p)` while a message is being published; `p` tells whether it holds a permit.
    pub in_flight: Option<bool>,
    /// False once every handle of the sender is gone.
    pub open: bool,
}

/// What the background publisher does next.
pub enum SenderStep {
    /// Publish `payload` on `topic`, then report it with `publish_done`.
    Publish { topic: String, payload: Vec<u8> },
    /// Nothing is queued: wait for a message.
    Wait,
    /// The sender is closed and drained: stop.
    Stop,
}

/// How many of the queued messages hold a permit.
pub open spec fn permit_count(q: Seq<QueuedMessage>) -> nat
    decreases q.len(),
{
    if q.len() == 0 {
        0
    } else {
        permit_count(q.drop_last()) + if q.last().permit {
            1nat
        } else {
            0nat
        }
    }
}

pub open spec fn in_flight_permits(f: Option<bool>) -> nat {
    if f == Some(true) {
        1
    } else {
        0
    }
}

/// The state of a queue just made with `new`.
pub open spec fn fresh_sender(topic: Seq<char>, capacity: nat) -> SenderView {
    SenderView { topic, capacity, in_use: 0, queue: Seq::empty(), in_flight: None, open: true }
}

/// The state after `try_send`, and whether it accepted the message.
pub open spec fn try_send_spec(v: SenderView, topic: Option<String>, payload: Vec<u8>) -> (
    SenderView,
    bool,
) {
    if v.in_use < v.capacity {
        (
            SenderView {
                in_use: v.in_use + 1,
                queue: v.queue.push(QueuedMessage { topic, payload, permit: true }),
                ..v
            },
            true,
        )
    } else {
        (v, false)
    }
}

/// The state after `send`: the message is queued, with a permit if one was free.
pub open spec fn send_spec(v: SenderView, topic: Option<String>, payload: Vec<u8>) -> SenderView {
    let permit = v.in_use < v.capacity;
    SenderView {
        in_use: if permit {
            v.in_use + 1
        } else {
            v.in_use
        },
        queue: v.queue.push(QueuedMessage { topic, payload, permit }),
        ..v
    }
}

/// The state after the publisher took the first queued message.
pub open spec fn take_spec(v: SenderView) -> SenderView {
    SenderView { queue: v.queue.drop_first(), in_flight: Some(v.queue[0].permit), ..v }
}

/// The state after the publisher reported the message in flight as published.
pub open spec fn done_spec(v: SenderView) -> SenderView {
    SenderView {
        in_use: (v.in_use - in_flight_permits(v.in_flight)) as nat,
        in_flight: None,
        ..v
    }
}

/// The topic a queued message goes to: its own, or else the sender's.
pub open spec fn target_topic(v: SenderView, m: QueuedMessage) -> Seq<char> {
    match m.topic {
        Some(t) => t@,
        None => v.topic,
    }
}

/// The state after a run of `try_send` calls, and the answer to each.
pub open spec fn try_send_all(v: SenderView, msgs: Seq<(Option<String>, Vec<u8>)>) -> (
    SenderView,
    Seq<bool>,
)
    decreases msgs.len(),
{
    if msgs.len() == 0 {
        (v, Seq::empty())
    } else {
        let (w, oks) = try_send_all(v, msgs.drop_last());
        let (x, ok) = try_send_spec(w, msgs.last().0, msgs.last().1);
        (x, oks.push(ok))
    }
}

pub struct SenderQueue {
    topic: String,
    capacity: u64,
    in_use: u64,
    queue: std::collections::VecDeque<QueuedMessage>,
    in_flight: Option<bool>,
    open: bool,
}

impl View for SenderQueue {
    type V = SenderView;

    closed spec fn view(&self) -> SenderView {
        SenderView {
            topic: self.topic@,
            capacity: self.capacity as nat,
            in_use: self.in_use as nat,
            queue: self.queue@,
            in_flight: self.in_flight,
            open: self.open,
        }
    }
}

proof fn lemma_permit_count_front(q: Seq<QueuedMessage>)
    requires
        q.len() > 0,
    ensures
        permit_count(q) == permit_count(q.drop_first()) + if q[0].permit {
            1nat
        } else {
            0nat
        },
    decreases q.len(),
{
    if q.len() > 1 {
        let p = q.drop_last();
        lemma_permit_count_front(p);
        assert(p.drop_first() =~= q.drop_first().drop_last());
        assert(q.drop_first().last() == q.last());
    } else {
        assert(q.drop_last() =~= Seq::<QueuedMessage>::empty());
        assert(q.drop_first() =~= Seq::<QueuedMessage>::empty());
    }
}

proof fn lemma_permit_count_push(q: Seq<QueuedMessage>, m: QueuedMessage)
    ensures
        permit_count(q.push(m)) == permit_count(q) + if m.permit {
            1nat
        } else {
            0nat
        },
{
    assert(q.push(m).drop_last() =~= q);
}

impl SenderQueue {
    /// The queue is consistent: the permits in use are those of the queued
    /// messages and of the message in flight, and never more than the capacity.
    pub open spec fn wf(&self) -> bool {
        &&& self@.in_use == permit_count(self@.queue) + in_flight_permits(self@.in_flight)
        &&& self@.in_use <= self@.capacity
    }

    pub fn new(topic: String, capacity: u64) -> (r: SenderQueue)
        ensures
            r.wf(),
            r@ == fresh_sender(topic@, capacity as nat),
    {
        let r = SenderQueue {
            topic,
            capacity,
            in_use: 0,
            queue: std::collections::VecDeque::new(),
            in_flight: None,
            open: true,
        };
        assert(r@.queue =~= Seq::<QueuedMessage>::empty());
        r
    }

    /// Permits held by messages that are not yet published.
    pub fn pending(&self) -> (r: u64)
        ensures
            r as nat == self@.in_use,
    {
        self.in_use
    }

    pub fn capacity(&self) -> (r: u64)
        ensures
            r as nat == self@.capacity,
    {
        self.capacity
    }

    /// Number of messages waiting for the publisher.
    pub fn queued(&self) -> (r: usize)
        ensures
            r == self@.queue.len(),
    {
        self.queue.len()
    }

    /// Enqueues a message if a permit is free; otherwise leaves the queue as
    /// it is and returns false at once.
    pub fn try_send(&mut self, topic: Option<String>, payload: Vec<u8>) -> (ok: bool)
        requires
            old(self).wf(),
        ensures
            final(self).wf(),
            (final(self)@, ok) == try_send_spec(old(self)@, topic, payload),
    {
        if self.in_use < self.capacity {
            proof {
                lemma_permit_count_push(self.queue@, QueuedMessage { topic, payload, permit: true });
            }
            self.queue.push_back(QueuedMessage { topic, payload, permit: true });
            self.in_use = self.in_use + 1;
            true
        } else {
            false
        }
    }

    /// Enqueues a message in any case: with a permit when one is free, and
    /// without one (past the bound) when none is.
    pub fn send(&mut self, topic: Option<String>, payload: Vec<u8>)
        requires
            old(self).wf(),
        ensures
            final(self).wf(),
            final(self)@ == send_spec(old(self)@, topic, payload),
    {
        let permit = self.in_use < self.capacity;
        proof {
            lemma_permit_count_push(self.queue@, QueuedMessage { topic, payload, permit });
        }
        self.queue.push_back(QueuedMessage { topic, payload, permit });
        if permit {
            self.in_use = self.in_use + 1;
        }
    }

    /// The publisher's next step: the first queued message, with the topic it
    /// goes to; or wait while the queue is empty and open; or stop once it is
    /// empty and closed.
    pub fn next_step(&mut self) -> (r: SenderStep)
        requires
            old(self).wf(),
            old(self)@.in_flight is None,
        ensures
            final(self).wf(),
            old(self)@.queue.len() > 0 ==> {
                &&& final(self)@ == take_spec(old(self)@)
                &&& r matches SenderStep::Publish { topic, payload } && topic@ == target_topic(
                    old(self)@,
                    old(self)@.queue[0],
                ) && payload == old(self)@.queue[0].payload
            },
            old(self)@.queue.len() == 0 ==> {
                &&& final(self)@ == old(self)@
                &&& (r is Wait <==> old(self)@.open)
                &&& (r is Stop <==> !old(self)@.open)
            },
    {
        match self.queue.pop_front() {
            Some(m) => {
                proof {
                    lemma_permit_count_front(old(self)@.queue);
                    assert(old(self)@.queue.drop_first() =~= self.queue@);
                }
                self.in_flight = Some(m.permit);
                let topic = match m.topic {
                    Some(t) => t,
                    None => self.topic.clone(),
                };
                SenderStep::Publish { topic, payload: m.payload }
            },
            None => {
                if self.open {
                    SenderStep::Wait
                } else {
                    SenderStep::Stop
                }
            },
        }
    }

    /// The publisher reports the message in flight as published, which
    /// returns its permit.
    pub fn publish_done(&mut self)
        requires
            old(self).wf(),
            old(self)@.in_flight is Some,
        ensures
            final(self).wf(),
            final(self)@ == done_spec(old(self)@),
    {
        if self.in_flight == Some(true) {
            self.in_use = self.in_use - 1;
        }
        self.in_flight = None;
    }

    /// The last handle of the sender is gone: the publisher stops once the
    /// queue is drained.
    pub fn close(&mut self)
        requires
            old(self).wf(),
        ensures
            final(self).wf(),
            final(self)@ == (SenderView { open: false, ..old(self)@ }),
    {
        self.open = false;
    }
}

proof fn lemma_try_send_all_fill(v: SenderView, msgs: Seq<(Option<String>, Vec<u8>)>)
    requires
        v.in_use + msgs.len() <= v.capacity,
        forall|j: int| 0 <= j < v.queue.len() ==> (#[trigger] v.queue[j]).permit,
    ensures
        forall|j: int|
            0 <= j < try_send_all(v, msgs).0.queue.len() ==> (#[trigger] try_send_all(
                v,
                msgs,
            ).0.queue[j]).permit,
        try_send_all(v, msgs).0.in_use == v.in_use + msgs.len(),
        try_send_all(v, msgs).0.capacity == v.capacity,
        try_send_all(v, msgs).0.in_flight == v.in_flight,
        try_send_all(v, msgs).0.queue.len() == v.queue.len() + msgs.len(),
        try_send_all(v, msgs).1.len() == msgs.len(),
        forall|i: int| 0 <= i < msgs.len() ==> #[trigger] try_send_all(v, msgs).1[i],
    decreases msgs.len(),
{
    if msgs.len() > 0 {
        lemma_try_send_all_fill(v, msgs.drop_last());
        let w = try_send_all(v, msgs.drop_last()).0;
        let x = try_send_all(v, msgs).0;
        assert forall|j: int| 0 <= j < x.queue.len() implies (#[trigger] x.queue[j]).permit by {
            if j < w.queue.len() {
                assert(x.queue[j] == w.queue[j]);
            }
        }
    }
}

/// Backpressure bound: on a fresh sender of capacity `N`, `N` calls of
/// `try_send` all succeed; the next one fails while none of the `N` messages
/// has been published; once the publisher has taken one message and reported
/// it published, `try_send` succeeds again.
pub proof fn lemma_backpressure(
    topic: Seq<char>,
    capacity: nat,
    msgs: Seq<(Option<String>, Vec<u8>)>,
    extra_topic: Option<String>,
    extra: Vec<u8>,
)
    requires
        msgs.len() == capacity,
        capacity > 0,
    ensures
        ({
            let (full, oks) = try_send_all(fresh_sender(topic, capacity), msgs);
            &&& oks.len() == capacity
            &&& forall|i: int| 0 <= i < capacity ==> #[trigger] oks[i]
            &&& try_send_spec(full, extra_topic, extra) == (full, false)
            &&& try_send_spec(done_spec(take_spec(full)), extra_topic, extra).1
        }),
{
    let v = fresh_sender(topic, capacity);
    lemma_try_send_all_fill(v, msgs);
    let full = try_send_all(v, msgs).0;
    assert(full.queue.len() > 0);
    assert(full.queue[0].permit);
}

} // verus!
