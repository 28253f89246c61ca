//! The decisions of an entity-event subscription.
//!
//! A subscription is first accepted; then, event after event, it takes the
//! next event from the broadcast channel and forwards it to the client if
//! its key passes the subscription's filter. It ends when accepting fails,
//! when the channel is closed, or when forwarding fails because the client
//! went away. A subscriber that fell behind and lost events keeps going
//! with the events that follow. The program performs each action and hands the
//! outcome back to `EventSubscription::step`.

use crate::db::events::{key_passes_filter, opt_view};
use crate::db::EntityEvent;
use vstd::prelude::*;

verus! {

/// Where a subscription stands.
#[derive(Debug, Clone, Copy, PartialEq, Eq, Structural)]
pub enum SubscriptionPhase {
    /// Waiting for the subscription to be accepted.
    Accepting,
    /// Waiting for the next event from the channel.
    Receiving,
    /// Waiting for an event to reach the client.
    Sending,
    /// Ended; nothing more is done.
    Finished,
}

/// The outcome of the action the program last performed.
#[derive(Debug, Clone, PartialEq, Eq)]
pub enum SubscriptionInput {
    /// The subscription was accepted.
    Accepted,
    /// Accepting the subscription failed.
    Rejected,
    /// The channel delivered an event.
    Received(EntityEvent),
    /// The channel is closed: every sender is gone.
    ChannelEnded,
    /// This subscriber fell behind and the channel dropped events it had
    /// not read yet; later events can still be received.
    Lagged,
    /// The event reached the client.
    Sent,
    /// The event could not be delivered.
    SendFailed,
}

/// What the program does next.
#[derive(Debug, Clone, PartialEq, Eq)]
pub enum SubscriptionAction {
    /// Take the next event from the channel.
    Receive,
    /// Deliver this event to the client.
    Send(EntityEvent),
    /// End the subscription.
    Stop,
}

/// The next phase and action of a subscription in `phase` with key filter
/// `filter` on `input`. Inputs that the phase does not wait for end the
/// subscription.
pub open spec fn transition(
    phase: SubscriptionPhase,
    filter: Option<Seq<char>>,
    input: SubscriptionInput,
) -> (SubscriptionPhase, SubscriptionAction) {
    match phase {
        SubscriptionPhase::Accepting => match input {
            SubscriptionInput::Accepted => (SubscriptionPhase::Receiving, SubscriptionAction::Receive),
            _ => (SubscriptionPhase::Finished, SubscriptionAction::Stop),
        },
        SubscriptionPhase::Receiving => match input {
            SubscriptionInput::Received(event) => if key_passes_filter(event.key@, filter) {
                (SubscriptionPhase::Sending, SubscriptionAction::Send(event))
            } else {
                (SubscriptionPhase::Receiving, SubscriptionAction::Receive)
            },
            SubscriptionInput::Lagged => (SubscriptionPhase::Receiving, SubscriptionAction::Receive),
            _ => (SubscriptionPhase::Finished, SubscriptionAction::Stop),
        },
        SubscriptionPhase::Sending => match input {
            SubscriptionInput::Sent => (SubscriptionPhase::Receiving, SubscriptionAction::Receive),
            _ => (SubscriptionPhase::Finished, SubscriptionAction::Stop),
        },
        SubscriptionPhase::Finished => (SubscriptionPhase::Finished, SubscriptionAction::Stop),
    }
}

/// A subscription to entity events, optionally limited to one key.
pub struct EventSubscription {
    key_filter: Option<String>,
    phase: SubscriptionPhase,
}

impl EventSubscription {
    /// The key the subscription is limited to, if any.
    pub closed spec fn filter(&self) -> Option<Seq<char>> {
        opt_view(self.key_filter)
    }

    /// Where the subscription stands.
    pub closed spec fn phase_spec(&self) -> SubscriptionPhase {
        self.phase
    }

    /// A subscription waiting to be accepted.
    pub fn new(key_filter: Option<String>) -> (subscription: EventSubscription)
        ensures
            subscription.filter() == opt_view(key_filter),
            subscription.phase_spec() == SubscriptionPhase::Accepting,
    {
        EventSubscription { key_filter, phase: SubscriptionPhase::Accepting }
    }

    /// Where the subscription stands.
    pub fn phase(&self) -> (phase: SubscriptionPhase)
        ensures
            phase == self.phase_spec(),
    {
        self.phase
    }

    /// Takes the outcome of the last action and decides the next one.
    pub fn step(&mut self, input: SubscriptionInput) -> (action: SubscriptionAction)
        ensures
            final(self).filter() == old(self).filter(),
            (final(self).phase_spec(), action) == transition(
                old(self).phase_spec(),
                old(self).filter(),
                input,
            ),
    {
        match self.phase {
            SubscriptionPhase::Accepting => match input {
                SubscriptionInput::Accepted => {
                    self.phase = SubscriptionPhase::Receiving;
                    SubscriptionAction::Receive
                },
                _ => {
                    self.phase = SubscriptionPhase::Finished;
                    SubscriptionAction::Stop
                },
            },
            SubscriptionPhase::Receiving => match input {
                SubscriptionInput::Received(event) => {
                    if event.passes_filter(&self.key_filter) {
                        self.phase = SubscriptionPhase::Sending;
                        SubscriptionAction::Send(event)
                    } else {
                        SubscriptionAction::Receive
                    }
                },
                SubscriptionInput::Lagged => SubscriptionAction::Receive,
                _ => {
                    self.phase = SubscriptionPhase::Finished;
                    SubscriptionAction::Stop
                },
            },
            SubscriptionPhase::Sending => match input {
                SubscriptionInput::Sent => {
                    self.phase = SubscriptionPhase::Receiving;
                    SubscriptionAction::Receive
                },
                _ => {
                    self.phase = SubscriptionPhase::Finished;
                    SubscriptionAction::Stop
                },
            },
            SubscriptionPhase::Finished => SubscriptionAction::Stop,
        }
    }
}

/// The events whose key passes the filter, in their order.
pub open spec fn matching_events(filter: Option<Seq<char>>, events: Seq<EntityEvent>) -> Seq<EntityEvent> {
    events.filter(|e: EntityEvent| key_passes_filter(e.key@, filter))
}

/// A listening subscription handed `events` one after another, each
/// delivery succeeding: the phase it ends in and the events it forwarded.
pub open spec fn delivery_run(filter: Option<Seq<char>>, events: Seq<EntityEvent>) -> (
    SubscriptionPhase,
    Seq<EntityEvent>,
)
    decreases events.len(),
{
    if events.len() == 0 {
        (SubscriptionPhase::Receiving, Seq::empty())
    } else {
        let (phase, sent) = delivery_run(filter, events.drop_last());
        let (next, action) = transition(phase, filter, SubscriptionInput::Received(events.last()));
        match action {
            SubscriptionAction::Send(event) => (
                transition(next, filter, SubscriptionInput::Sent).0,
                sent.push(event),
            ),
            _ => (next, sent),
        }
    }
}

/// While its deliveries succeed, a subscription keeps listening and
/// forwards exactly the events whose key passes its filter, each once and
/// in the order they came.
pub proof fn lemma_delivery_run_forwards_matching(filter: Option<Seq<char>>, events: Seq<EntityEvent>)
    ensures
        delivery_run(filter, events) == (SubscriptionPhase::Receiving, matching_events(filter, events)),
    decreases events.len(),
{
    reveal(Seq::filter);
    if events.len() > 0 {
        lemma_delivery_run_forwards_matching(filter, events.drop_last());
    }
}

/// An ended subscription stays ended and does nothing more, whatever it is
/// handed.
pub proof fn lemma_finished_is_final(filter: Option<Seq<char>>, input: SubscriptionInput)
    ensures
        transition(SubscriptionPhase::Finished, filter, input) == (
            SubscriptionPhase::Finished,
            SubscriptionAction::Stop,
        ),
{
}

/// A received event is forwarded exactly when its key passes the filter,
/// and then it is forwarded unchanged; an event that does not pass is
/// skipped and the subscription waits for the next one.
pub proof fn lemma_forwards_exactly_matching(filter: Option<Seq<char>>, event: EntityEvent)
    ensures
        ({
            let (phase, action) = transition(
                SubscriptionPhase::Receiving,
                filter,
                SubscriptionInput::Received(event),
            );
            &&& key_passes_filter(event.key@, filter) ==> phase == SubscriptionPhase::Sending
                && action == SubscriptionAction::Send(event)
            &&& !key_passes_filter(event.key@, filter) ==> phase == SubscriptionPhase::Receiving
                && action == SubscriptionAction::Receive
        }),
{
}

/// Without a filter every received event is forwarded.
pub proof fn lemma_unfiltered_forwards_all(event: EntityEvent)
    ensures
        transition(SubscriptionPhase::Receiving, None, SubscriptionInput::Received(event)).1
            == SubscriptionAction::Send(event),
{
}

/// A subscriber that fell behind keeps listening: the lost events are
/// gone, and the next event that passes the filter is forwarded.
pub proof fn lemma_lag_keeps_listening(filter: Option<Seq<char>>, event: EntityEvent)
    ensures
        transition(SubscriptionPhase::Receiving, filter, SubscriptionInput::Lagged) == (
            SubscriptionPhase::Receiving,
            SubscriptionAction::Receive,
        ),
        key_passes_filter(event.key@, filter) ==> transition(
            transition(SubscriptionPhase::Receiving, filter, SubscriptionInput::Lagged).0,
            filter,
            SubscriptionInput::Received(event),
        ) == (SubscriptionPhase::Sending, SubscriptionAction::Send(event)),
{
}

/// A failed delivery, or a closed channel, ends the subscription.
pub proof fn lemma_failure_ends(filter: Option<Seq<char>>)
    ensures
        transition(SubscriptionPhase::Sending, filter, SubscriptionInput::SendFailed) == (
            SubscriptionPhase::Finished,
            SubscriptionAction::Stop,
        ),
        transition(SubscriptionPhase::Receiving, filter, SubscriptionInput::ChannelEnded) == (
            SubscriptionPhase::Finished,
            SubscriptionAction::Stop,
        ),
{
}

} // verus!
