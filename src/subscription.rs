//! Shutdown of a subscription, driven by a cancellation signal.
//!
//! A subscription is Active until a shutdown signal arrives, Unsubscribing
//! while the messages already delivered to it drain, and Closed once its
//! stream has ended. The decisions are made here; the caller polls the
//! stream and the signal, feeds what became ready, and carries out the action
//! returned.

use vstd::prelude::*;

verus! {

#[derive(Clone, Copy, Debug, PartialEq, Eq, Structural)]
pub enum SubscriptionState {
    Active,
    Unsubscribing,
    Closed,
}

/// What became ready for a subscription, or what its owner asked of it.
#[derive(Clone, Copy, Debug, PartialEq, Eq, Structural)]
pub enum SubscriptionEvent {
    /// The stream yielded a message (preferred when the signal is ready too).
    MessageReady,
    /// The stream has no more messages.
    StreamEnded,
    /// The cancellation signal arrived.
    ShutdownSignal,
    /// The owner deletes the subscription.
    Delete,
}

/// What the caller does in answer to an event.
#[derive(Clone, Copy, Debug, PartialEq, Eq, Structural)]
pub enum SubscriptionAction {
    /// Hand the message over.
    Deliver,
    /// Unsubscribe from the messaging client, then keep polling.
    Unsubscribe,
    /// Nothing to do: keep polling.
    Continue,
    /// Report end of stream.
    End,
}

/// The transition function of a subscription.
pub open spec fn sub_step(s: SubscriptionState, e: SubscriptionEvent) -> (
    SubscriptionState,
    SubscriptionAction,
) {
    match (s, e) {
        (SubscriptionState::Closed, _) => (SubscriptionState::Closed, SubscriptionAction::End),
        (_, SubscriptionEvent::MessageReady) => (s, SubscriptionAction::Deliver),
        (_, SubscriptionEvent::StreamEnded) => (
            SubscriptionState::Closed,
            SubscriptionAction::End,
        ),
        (SubscriptionState::Active, SubscriptionEvent::ShutdownSignal) => (
            SubscriptionState::Unsubscribing,
            SubscriptionAction::Unsubscribe,
        ),
        (SubscriptionState::Active, SubscriptionEvent::Delete) => (
            SubscriptionState::Closed,
            SubscriptionAction::Unsubscribe,
        ),
        (_, SubscriptionEvent::ShutdownSignal) => (s, SubscriptionAction::Continue),
        (_, SubscriptionEvent::Delete) => (SubscriptionState::Closed, SubscriptionAction::Continue),
    }
}

/// The state and the actions after a run of events.
pub open spec fn sub_run(s: SubscriptionState, evs: Seq<SubscriptionEvent>) -> (
    SubscriptionState,
    Seq<SubscriptionAction>,
)
    decreases evs.len(),
{
    if evs.len() == 0 {
        (s, Seq::empty())
    } else {
        let (t, acts) = sub_run(s, evs.drop_last());
        let (u, a) = sub_step(t, evs.last());
        (u, acts.push(a))
    }
}

/// How many unsubscribe actions a run issued.
pub open spec fn unsubscribes(acts: Seq<SubscriptionAction>) -> nat
    decreases acts.len(),
{
    if acts.len() == 0 {
        0
    } else {
        unsubscribes(acts.drop_last()) + if acts.last() == SubscriptionAction::Unsubscribe {
            1nat
        } else {
            0nat
        }
    }
}

/// The first event of a run that is not a message.
pub open spec fn first_non_message(evs: Seq<SubscriptionEvent>) -> Option<SubscriptionEvent>
    decreases evs.len(),
{
    if evs.len() == 0 {
        None
    } else {
        match first_non_message(evs.drop_last()) {
            Some(e) => Some(e),
            None => if evs.last() != SubscriptionEvent::MessageReady {
                Some(evs.last())
            } else {
                None
            },
        }
    }
}

pub struct SubscriptionCore {
    state: SubscriptionState,
}

impl View for SubscriptionCore {
    type V = SubscriptionState;

    closed spec fn view(&self) -> SubscriptionState {
        self.state
    }
}

impl SubscriptionCore {
    pub fn new() -> (r: SubscriptionCore)
        ensures
            r@ == SubscriptionState::Active,
    {
        SubscriptionCore { state: SubscriptionState::Active }
    }

    pub fn state(&self) -> (r: SubscriptionState)
        ensures
            r == self@,
    {
        self.state
    }

    /// Whether the stream still has to be polled; once closed, every pop
    /// reports end of stream at once.
    pub fn is_closed(&self) -> (r: bool)
        ensures
            r == (self@ == SubscriptionState::Closed),
    {
        self.state == SubscriptionState::Closed
    }

    pub fn on_event(&mut self, e: SubscriptionEvent) -> (r: SubscriptionAction)
        ensures
            (final(self)@, r) == sub_step(old(self)@, e),
    {
        match (self.state, e) {
            (SubscriptionState::Closed, _) => SubscriptionAction::End,
            (_, SubscriptionEvent::MessageReady) => SubscriptionAction::Deliver,
            (_, SubscriptionEvent::StreamEnded) => {
                self.state = SubscriptionState::Closed;
                SubscriptionAction::End
            },
            (SubscriptionState::Active, SubscriptionEvent::ShutdownSignal) => {
                self.state = SubscriptionState::Unsubscribing;
                SubscriptionAction::Unsubscribe
            },
            (SubscriptionState::Active, SubscriptionEvent::Delete) => {
                self.state = SubscriptionState::Closed;
                SubscriptionAction::Unsubscribe
            },
            (_, SubscriptionEvent::ShutdownSignal) => SubscriptionAction::Continue,
            (_, SubscriptionEvent::Delete) => {
                self.state = SubscriptionState::Closed;
                SubscriptionAction::Continue
            },
        }
    }
}

/// The state behind every clone of a cancellation token: whether the
/// shutdown signal has been sent.
pub struct CancelSignal {
    sent: bool,
}

impl View for CancelSignal {
    type V = bool;

    closed spec fn view(&self) -> bool {
        self.sent
    }
}

/// The state after a cancel, and whether that cancel must send the signal.
pub open spec fn cancel_spec(sent: bool) -> (bool, bool) {
    (true, !sent)
}

impl CancelSignal {
    pub fn new() -> (r: CancelSignal)
        ensures
            !r@,
    {
        CancelSignal { sent: false }
    }

    pub fn is_sent(&self) -> (r: bool)
        ensures
            r == self@,
    {
        self.sent
    }

    /// Marks the signal sent; returns true only for the first cancel, which
    /// is the one that sends it.
    pub fn cancel(&mut self) -> (send: bool)
        ensures
            (final(self)@, send) == cancel_spec(old(self)@),
    {
        let send = !self.sent;
        self.sent = true;
        send
    }
}

proof fn lemma_run_shape(evs: Seq<SubscriptionEvent>)
    ensures
        ({
            let (st, acts) = sub_run(SubscriptionState::Active, evs);
            &&& acts.len() == evs.len()
            &&& first_non_message(evs) != Some(SubscriptionEvent::MessageReady)
            &&& match first_non_message(evs) {
                None => st == SubscriptionState::Active && unsubscribes(acts) == 0,
                Some(SubscriptionEvent::StreamEnded) => st == SubscriptionState::Closed
                    && unsubscribes(acts) == 0,
                Some(SubscriptionEvent::ShutdownSignal) => st != SubscriptionState::Active
                    && unsubscribes(acts) == 1,
                Some(_) => st == SubscriptionState::Closed && unsubscribes(acts) == 1,
            }
            &&& (exists|i: int| 0 <= i < acts.len() && acts[i] == SubscriptionAction::End)
                ==> st == SubscriptionState::Closed
            &&& forall|i: int, j: int|
                0 <= i < j < acts.len() && #[trigger] acts[i] == SubscriptionAction::End ==> #[trigger] acts[j]
                    == SubscriptionAction::End
        }),
    decreases evs.len(),
{
    if evs.len() > 0 {
        let pre = evs.drop_last();
        lemma_run_shape(pre);
        let (t, acts0) = sub_run(SubscriptionState::Active, pre);
        let (u, a) = sub_step(t, evs.last());
        let acts = acts0.push(a);
        assert(acts.drop_last() =~= acts0);
        if exists|i: int| 0 <= i < acts.len() && acts[i] == SubscriptionAction::End {
            let i = choose|i: int| 0 <= i < acts.len() && acts[i] == SubscriptionAction::End;
            if i < acts0.len() {
                assert(acts0[i] == SubscriptionAction::End);
            }
        }
        assert forall|i: int, j: int|
            0 <= i < j < acts.len() && #[trigger] acts[i] == SubscriptionAction::End implies #[trigger] acts[j]
            == SubscriptionAction::End by {
            if j < acts0.len() {
                assert(acts0[i] == SubscriptionAction::End);
                assert(acts0[j] == SubscriptionAction::End);
            } else {
                assert(acts0[i] == SubscriptionAction::End);
            }
        }
    }
}

/// Cancellation is idempotent: a second cancel, made through the same token
/// or a clone of it, leaves the signal as the first left it and sends
/// nothing, so the signal is sent exactly once.
pub proof fn lemma_cancel_twice(sent: bool)
    requires
        !sent,
    ensures
        cancel_spec(cancel_spec(sent).0).0 == cancel_spec(sent).0,
        cancel_spec(sent).1,
        !cancel_spec(cancel_spec(sent).0).1,
{
}

/// Whatever the order of events, a subscription issues at most one
/// unsubscribe, and exactly one when the first event other than a message is
/// a shutdown signal or a delete; once it has reported end of stream, it
/// reports end of stream for every later event.
pub proof fn lemma_single_unsubscribe(evs: Seq<SubscriptionEvent>)
    ensures
        ({
            let (st, acts) = sub_run(SubscriptionState::Active, evs);
            &&& unsubscribes(acts) <= 1
            &&& (unsubscribes(acts) == 1 <==> (first_non_message(evs)
                == Some(SubscriptionEvent::ShutdownSignal) || first_non_message(evs) == Some(
                SubscriptionEvent::Delete,
            )))
            &&& forall|i: int, j: int|
                0 <= i < j < acts.len() && #[trigger] acts[i] == SubscriptionAction::End ==> #[trigger] acts[j]
                    == SubscriptionAction::End
        }),
{
    lemma_run_shape(evs);
}

} // verus!
