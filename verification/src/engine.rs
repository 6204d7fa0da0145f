//! Confirming an action by the event that it causes.
//!
//! An extrinsic counts as successful only when its submission has returned and the event
//! that it should cause has been seen before a deadline. To miss nothing, the events are
//! subscribed to before the action is driven. Whoever runs the confirmation performs
//! what it directs and reports back what happened; the order of things is decided here.

use vstd::prelude::*;

use crate::event::{Event, EventKind, ListeningError};
use crate::interval::Interval;

verus! {

/// Where a confirmation stands.
pub enum ConfirmationPhase<R> {
    /// The subscription has been asked for.
    Subscribing,
    /// The listener runs and the action is being driven.
    Acting,
    /// The action has returned this result; the event is awaited.
    Waiting(R),
    /// The confirmation has returned.
    Finished,
}

/// What has happened since the last directive.
pub enum ConfirmationEvent<R, E, X> {
    /// The node has accepted the subscription; the listener runs.
    Subscribed,
    /// The node has turned the subscription down.
    SubscriptionFailed,
    /// The action has returned.
    ActionReturned(Result<R, X>),
    /// The listener has handed over a matching event.
    EventSpotted(E),
    /// The deadline has passed without a matching event.
    DeadlineMissed,
}

/// Why a confirmation has failed.
pub enum ConfirmationFailure<X> {
    /// The subscription failed or the event did not come.
    Listening(ListeningError),
    /// The action itself failed, with this error.
    Action(X),
}

/// What is to be done next.
pub enum Directive<R, E, X> {
    /// Subscribe to the events of the node and start the listener.
    Subscribe,
    /// Drive the action.
    DriveAction,
    /// Wait for the listener to hand over the event, no longer than this.
    AwaitEvent(Interval),
    /// Return `outcome` to the caller, after calling off the listener if it still runs.
    Return {
        /// What the confirmation has come to.
        outcome: Result<(R, E), ConfirmationFailure<X>>,
        /// Whether the listener still runs and is to be called off.
        cancel_listener: bool,
    },
}

/// Whether `event` can happen in `phase`.
pub open spec fn fits<R, E, X>(phase: ConfirmationPhase<R>, event: ConfirmationEvent<R, E, X>) -> bool {
    match phase {
        ConfirmationPhase::Subscribing => event is Subscribed || event is SubscriptionFailed,
        ConfirmationPhase::Acting => event is ActionReturned,
        ConfirmationPhase::Waiting(_) => event is EventSpotted || event is DeadlineMissed,
        ConfirmationPhase::Finished => false,
    }
}

/// What follows when `event` happens in `phase`.
///
/// The action is driven once the subscription stands, and not if it fails. An action that
/// fails ends the confirmation with its own error, without any waiting. After an action
/// that succeeds the event is awaited for `timeout`; the event ends the confirmation with
/// the result of the action and the event, the deadline ends it with an error. The
/// listener is called off whenever the confirmation ends while it still runs.
pub open spec fn confirmation_next<R, E, X>(
    timeout: Interval,
    phase: ConfirmationPhase<R>,
    event: ConfirmationEvent<R, E, X>,
) -> (ConfirmationPhase<R>, Directive<R, E, X>) {
    match (phase, event) {
        (ConfirmationPhase::Subscribing, ConfirmationEvent::Subscribed) => (
            ConfirmationPhase::Acting,
            Directive::DriveAction,
        ),
        (ConfirmationPhase::Subscribing, ConfirmationEvent::SubscriptionFailed) => (
            ConfirmationPhase::Finished,
            Directive::Return {
                outcome: Err(ConfirmationFailure::Listening(ListeningError::CannotSubscribe)),
                cancel_listener: false,
            },
        ),
        (ConfirmationPhase::Acting, ConfirmationEvent::ActionReturned(Ok(result))) => (
            ConfirmationPhase::Waiting(result),
            Directive::AwaitEvent(timeout),
        ),
        (ConfirmationPhase::Acting, ConfirmationEvent::ActionReturned(Err(error))) => (
            ConfirmationPhase::Finished,
            Directive::Return {
                outcome: Err(ConfirmationFailure::Action(error)),
                cancel_listener: true,
            },
        ),
        (ConfirmationPhase::Waiting(result), ConfirmationEvent::EventSpotted(spotted)) => (
            ConfirmationPhase::Finished,
            Directive::Return { outcome: Ok((result, spotted)), cancel_listener: false },
        ),
        (ConfirmationPhase::Waiting(_), ConfirmationEvent::DeadlineMissed) => (
            ConfirmationPhase::Finished,
            Directive::Return {
                outcome: Err(ConfirmationFailure::Listening(ListeningError::NoEventSpotted)),
                cancel_listener: true,
            },
        ),
        _ => (
            ConfirmationPhase::Finished,
            Directive::Return {
                outcome: Err(ConfirmationFailure::Listening(ListeningError::NoEventSpotted)),
                cancel_listener: true,
            },
        ),
    }
}

/// One confirmation under way.
pub struct Confirmation<R> {
    /// How long the event may take once the action has returned.
    pub timeout: Interval,
    /// Where the confirmation stands.
    pub phase: ConfirmationPhase<R>,
}

/// Sets out to confirm an action by an event that may take `event_timeout` to arrive
/// after the action has returned. The first thing to do is to subscribe.
pub fn with_event_matching<R, E, X>(event_timeout: Interval) -> (begun: (
    Confirmation<R>,
    Directive<R, E, X>,
))
    requires
        event_timeout.nanos > 0,
    ensures
        begun.0.timeout == event_timeout,
        begun.0.phase is Subscribing,
        begun.1 is Subscribe,
{
    (
        Confirmation { timeout: event_timeout, phase: ConfirmationPhase::Subscribing },
        Directive::Subscribe,
    )
}

/// Sets out to confirm an action by an event that `expected_event` matches. What is
/// handed back besides is the kind of event that the listener is to look for.
pub fn with_event_listening<R, E: Event, X>(expected_event: &E, event_timeout: Interval) -> (begun:
    (Confirmation<R>, Directive<R, E, X>, EventKind))
    requires
        event_timeout.nanos > 0,
    ensures
        begun.0.timeout == event_timeout,
        begun.0.phase is Subscribing,
        begun.1 is Subscribe,
        begun.2.0@ == expected_event.pallet(),
        begun.2.1@ == expected_event.variant(),
{
    let (confirmation, first) = with_event_matching(event_timeout);
    (confirmation, first, expected_event.kind())
}

impl<R> Confirmation<R> {
    /// Whether `event` can be reported now. Anything else must not be handed to
    /// [`Self::step`].
    pub fn expects<E, X>(&self, event: &ConfirmationEvent<R, E, X>) -> (expected: bool)
        ensures
            expected == fits(self.phase, *event),
    {
        match (&self.phase, event) {
            (ConfirmationPhase::Subscribing, ConfirmationEvent::Subscribed) => true,
            (ConfirmationPhase::Subscribing, ConfirmationEvent::SubscriptionFailed) => true,
            (ConfirmationPhase::Acting, ConfirmationEvent::ActionReturned(_)) => true,
            (ConfirmationPhase::Waiting(_), ConfirmationEvent::EventSpotted(_)) => true,
            (ConfirmationPhase::Waiting(_), ConfirmationEvent::DeadlineMissed) => true,
            _ => false,
        }
    }

    /// Takes in what has happened and says what to do next.
    pub fn step<E, X>(self, event: ConfirmationEvent<R, E, X>) -> (next: (
        Confirmation<R>,
        Directive<R, E, X>,
    ))
        requires
            fits(self.phase, event),
        ensures
            next.0.timeout == self.timeout,
            (next.0.phase, next.1) == confirmation_next(self.timeout, self.phase, event),
    {
        let timeout = self.timeout;
        let ghost expected = confirmation_next(timeout, self.phase, event);
        let (phase, directive) = match (self.phase, event) {
            (ConfirmationPhase::Subscribing, ConfirmationEvent::Subscribed) => (
                ConfirmationPhase::Acting,
                Directive::DriveAction,
            ),
            (ConfirmationPhase::Subscribing, _) => (
                ConfirmationPhase::Finished,
                Directive::Return {
                    outcome: Err(ConfirmationFailure::Listening(ListeningError::CannotSubscribe)),
                    cancel_listener: false,
                },
            ),
            (ConfirmationPhase::Acting, ConfirmationEvent::ActionReturned(Ok(result))) => (
                ConfirmationPhase::Waiting(result),
                Directive::AwaitEvent(timeout),
            ),
            (ConfirmationPhase::Acting, ConfirmationEvent::ActionReturned(Err(error))) => (
                ConfirmationPhase::Finished,
                Directive::Return {
                    outcome: Err(ConfirmationFailure::Action(error)),
                    cancel_listener: true,
                },
            ),
            (ConfirmationPhase::Waiting(result), ConfirmationEvent::EventSpotted(spotted)) => (
                ConfirmationPhase::Finished,
                Directive::Return { outcome: Ok((result, spotted)), cancel_listener: false },
            ),
            _ => (
                ConfirmationPhase::Finished,
                Directive::Return {
                    outcome: Err(ConfirmationFailure::Listening(ListeningError::NoEventSpotted)),
                    cancel_listener: true,
                },
            ),
        };
        assert((phase, directive) == expected);
        (Confirmation { timeout, phase }, directive)
    }
}

/// The action is driven in answer to the news that the subscription stands, and at no
/// other time: not before the subscription was asked for, not when it failed, and not a
/// second time.
pub proof fn lemma_action_follows_subscription<R, E, X>(
    timeout: Interval,
    phase: ConfirmationPhase<R>,
    event: ConfirmationEvent<R, E, X>,
)
    requires
        fits(phase, event),
    ensures
        confirmation_next(timeout, phase, event).1 is DriveAction <==> (phase is Subscribing
            && event is Subscribed),
        !(confirmation_next(timeout, phase, event).1 is Subscribe),
        confirmation_next(timeout, phase, event).0 is Acting <==> (phase is Subscribing
            && event is Subscribed),
        (phase is Subscribing && event is SubscriptionFailed) ==> confirmation_next(
            timeout,
            phase,
            event,
        ).1 == (Directive::<R, E, X>::Return {
            outcome: Err(ConfirmationFailure::Listening(ListeningError::CannotSubscribe)),
            cancel_listener: false,
        }),
{
}

/// An action that fails ends the confirmation at once with the error of the action: no
/// event is awaited, and the listener is called off.
pub proof fn lemma_failed_action_is_not_awaited<R, E, X>(timeout: Interval, error: X)
    ensures
        confirmation_next::<R, E, X>(
            timeout,
            ConfirmationPhase::Acting,
            ConfirmationEvent::ActionReturned(Err(error)),
        ) == (
            ConfirmationPhase::<R>::Finished,
            Directive::<R, E, X>::Return {
                outcome: Err(ConfirmationFailure::Action(error)),
                cancel_listener: true,
            },
        ),
{
}

/// After an action that succeeds the event is awaited for exactly the time that was
/// agreed. If the deadline passes, the confirmation ends with the error that no event was
/// spotted; if the event comes, it ends with the result of the action and the event.
pub proof fn lemma_deadline_decides<R, E, X>(timeout: Interval, result: R, spotted: E)
    ensures
        confirmation_next::<R, E, X>(
            timeout,
            ConfirmationPhase::Acting,
            ConfirmationEvent::ActionReturned(Ok(result)),
        ) == (ConfirmationPhase::Waiting(result), Directive::<R, E, X>::AwaitEvent(timeout)),
        confirmation_next::<R, E, X>(
            timeout,
            ConfirmationPhase::Waiting(result),
            ConfirmationEvent::DeadlineMissed,
        ) == (
            ConfirmationPhase::<R>::Finished,
            Directive::<R, E, X>::Return {
                outcome: Err(ConfirmationFailure::Listening(ListeningError::NoEventSpotted)),
                cancel_listener: true,
            },
        ),
        confirmation_next::<R, E, X>(
            timeout,
            ConfirmationPhase::Waiting(result),
            ConfirmationEvent::EventSpotted(spotted),
        ) == (
            ConfirmationPhase::<R>::Finished,
            Directive::<R, E, X>::Return { outcome: Ok((result, spotted)), cancel_listener: false },
        ),
{
}

/// Where a confirmation stands after the first `n` of `events`, each of which fits the
/// phase in which it happens; nothing if one of them does not.
pub open spec fn confirmation_after<R, E, X>(
    timeout: Interval,
    events: Seq<ConfirmationEvent<R, E, X>>,
    n: nat,
) -> Option<ConfirmationPhase<R>>
    decreases n,
{
    if n == 0 {
        Some(ConfirmationPhase::Subscribing)
    } else {
        match confirmation_after(timeout, events, (n - 1) as nat) {
            None => None,
            Some(phase) => if fits(phase, events[n - 1]) {
                Some(confirmation_next(timeout, phase, events[n - 1]).0)
            } else {
                None
            },
        }
    }
}

/// In every run of a confirmation the action is driven at most once, namely in answer to
/// the first thing that happens, and only if that is the news that the subscription
/// stands. Whenever the action has returned, the subscription stood before.
pub proof fn lemma_subscription_comes_first<R, E, X>(
    timeout: Interval,
    events: Seq<ConfirmationEvent<R, E, X>>,
    k: nat,
)
    requires
        k < events.len(),
        confirmation_after(timeout, events, k + 1) is Some,
    ensures
        confirmation_after(timeout, events, k) is Some,
        confirmation_next(timeout, confirmation_after(timeout, events, k)->Some_0, events[k as int]).1 is DriveAction
            ==> k == 0 && events[0] is Subscribed,
        events[k as int] is ActionReturned ==> k == 1 && events[0] is Subscribed,
        k <= 2,
    decreases k,
{
    let phase = confirmation_after(timeout, events, k)->Some_0;
    if k >= 1 {
        let j = (k - 1) as nat;
        assert(confirmation_after(timeout, events, j + 1) is Some);
        lemma_subscription_comes_first(timeout, events, j);
        if k >= 2 {
            let i = (k - 2) as nat;
            assert(confirmation_after(timeout, events, i + 1) is Some);
            lemma_subscription_comes_first(timeout, events, i);
        }
    }
}

} // verus!
