use vstd::prelude::*;

use crate::households::domain::{HouseholdEvent, HouseholdId};
use crate::households::ports::{HouseholdEventPublisher, HouseholdEventPublisherError};
use crate::shared::InternalError;

verus! {

/// Events that a use case still has to publish for a household, in order. The caller
/// publishes `next()` and hands the publisher's answer to `on_published`.
#[derive(Debug, Clone, PartialEq, Eq)]
pub struct PendingHouseholdEvents {
    pub household_id: HouseholdId,
    pub events: Vec<HouseholdEvent>,
}

impl PendingHouseholdEvents {
    /// The event to publish next, if any is left.
    pub fn next(&self) -> (r: Option<HouseholdEvent>)
        ensures
            self.events@.len() == 0 ==> r is None,
            self.events@.len() > 0 ==> r == Some(self.events@[0]),
    {
        if self.events.len() == 0 {
            None
        } else {
            Some(self.events[0])
        }
    }

    /// Takes the publisher's answer for `next()`: a failure stops the use case, a success
    /// leaves the events after it.
    pub fn on_published(self, reply: Result<(), HouseholdEventPublisherError>) -> (r: Result<
        Option<PendingHouseholdEvents>,
        InternalError,
    >)
        ensures
            reply is Err ==> r == Err::<Option<PendingHouseholdEvents>, InternalError>(
                InternalError::Failed,
            ),
            reply is Ok && self.events@.len() <= 1 ==> r == Ok::<
                Option<PendingHouseholdEvents>,
                InternalError,
            >(None),
            reply is Ok && self.events@.len() > 1 ==> (r matches Ok(Some(rest)) && rest.household_id
                == self.household_id && rest.events@ == self.events@.drop_first()),
    {
        match reply {
            Err(_) => Err(InternalError::Failed),
            Ok(()) => {
                if self.events.len() <= 1 {
                    Ok(None)
                } else {
                    let mut events = self.events;
                    events.remove(0);
                    Ok(Some(PendingHouseholdEvents { household_id: self.household_id, events }))
                }
            },
        }
    }
}

/// Publishes the pending events in order, stopping at the first failure.
///
/// With nothing to publish, the publisher is not called and the outcome is a success.
/// Otherwise the publisher, an implementation of `HouseholdEventPublisher` that this library
/// does not know, decides: what it answers is not stated, so the outcome is only known to be
/// a success or `InternalError::Failed`.
pub fn publish_pending<P: HouseholdEventPublisher + ?Sized>(
    publisher: &P,
    pending: PendingHouseholdEvents,
) -> (r: Result<(), InternalError>)
    ensures
        pending.events@.len() == 0 ==> r == Ok::<(), InternalError>(()),
        r is Err ==> r == Err::<(), InternalError>(InternalError::Failed),
{
    let ghost nothing_pending = pending.events@.len() == 0;
    let mut current = pending;
    loop
        invariant
            nothing_pending == (pending.events@.len() == 0),
            nothing_pending ==> current.events@.len() == 0,
        decreases current.events@.len(),
    {
        match current.next() {
            None => {
                return Ok(());
            },
            Some(event) => {
                let reply = publisher.publish(current.household_id, event);
                match current.on_published(reply) {
                    Err(e) => {
                        return Err(e);
                    },
                    Ok(None) => {
                        return Ok(());
                    },
                    Ok(Some(rest)) => {
                        current = rest;
                    },
                }
            },
        }
    }
}

} // verus!
