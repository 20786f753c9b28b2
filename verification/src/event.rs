//! The outside event sources that wake waiting senders, receivers and lock
//! operations, and the trusted calls into them.
//!
//! Notifying and listening act on shared state that other threads change at
//! the same time; nothing about who is woken is stated.

use vstd::prelude::*;
use event_listener::{Event, EventListener};

verus! {

#[verifier::external_type_specification]
#[verifier::external_body]
pub struct ExEvent(Event);

#[verifier::external_type_specification]
#[verifier::external_body]
pub struct ExEventListener(EventListener);

/// `Event::new` makes an event source with no listeners.
pub assume_specification[Event::new]() -> Event;

/// `Event::listen` registers a new listener for the next notification.
pub assume_specification[Event::listen](event: &Event) -> EventListener;

/// `Event::notify` wakes up to `n` listeners that are not yet notified.
pub assume_specification[Event::notify](event: &Event, n: usize);

/// `Event::notify_additional` wakes up `n` more listeners.
pub assume_specification[Event::notify_additional](event: &Event, n: usize);

/// Evidence that an event was notified: which event, and how many
/// listeners the notification was for. Only this module makes one, right
/// after the notification, so a value of this type stands for a
/// notification that really happened.
pub struct Notified {
    event: Ghost<Event>,
    count: Ghost<usize>,
}

impl Notified {
    /// The event that was notified.
    pub closed spec fn event(&self) -> Event {
        self.event@
    }

    /// How many listeners the notification was for.
    pub closed spec fn count(&self) -> usize {
        self.count@
    }
}

/// Notifies `n` listeners of `event` and hands back the evidence of it.
pub(crate) fn notify_recorded(event: &Event, n: usize) -> (r: Notified)
    ensures
        r.event() == *event,
        r.count() == n,
{
    event.notify(n);
    Notified { event: Ghost(*event), count: Ghost(n) }
}

} // verus!
