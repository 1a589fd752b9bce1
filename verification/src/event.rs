//! An event raised by an aggregate and not yet handed to persistence.
use crate::time::Timestamp;
use vstd::prelude::*;

verus! {

/// A domain event together with the moment it occurred.
#[derive(Debug, Clone, PartialEq, Eq)]
pub struct PendingEvent<E> {
    /// The typed event.
    pub payload: E,
    /// When the event occurred.
    pub occurred_at: Timestamp,
}

impl<E> PendingEvent<E> {
    /// Wraps `payload` raised at `occurred_at`.
    pub fn new(payload: E, occurred_at: Timestamp) -> (e: PendingEvent<E>)
        ensures
            e == (PendingEvent { payload, occurred_at }),
    {
        PendingEvent { payload, occurred_at }
    }
}

/// The payloads of a sequence of pending events, in order.
pub open spec fn payloads<E>(events: Seq<PendingEvent<E>>) -> Seq<E> {
    events.map_values(|e: PendingEvent<E>| e.payload)
}

} // verus!
