use vstd::prelude::*;

use crate::accounts::UserId;
use crate::households::domain::HouseholdId;
use crate::households::ports::{
    HouseholdAccessError, HouseholdEventSubscriber, HouseholdEventSubscriberError,
};
use crate::shared::InternalError;

verus! {

pub struct SubscribeHouseholdEventsCommand {
    pub requester_id: UserId,
    pub household_id: HouseholdId,
}

#[derive(Debug, Clone, Copy, PartialEq, Eq, Structural)]
pub enum SubscribeHouseholdEventsError {
    HouseholdAccess(HouseholdAccessError),
    Internal(InternalError),
}

/// Opens a stream of a household's events for one of its members.
///
/// Stages: the command waits for the access policy's member check (`on_access`); then
/// `subscribe` asks the subscriber for a receiver.
pub struct SubscribeHouseholdEventsService<A, S> {
    pub household_access_policy: A,
    pub household_events_subscriber: S,
}

impl<A, S> SubscribeHouseholdEventsService<A, S> {
    pub fn new(household_access_policy: A, household_events_subscriber: S) -> (r: Self)
        ensures
            r.household_access_policy == household_access_policy,
            r.household_events_subscriber == household_events_subscriber,
    {
        SubscribeHouseholdEventsService { household_access_policy, household_events_subscriber }
    }
}

impl SubscribeHouseholdEventsCommand {
    /// The requester must be a member; next, the subscription is opened.
    pub fn on_access<M>(self, reply: Result<M, HouseholdAccessError>) -> (r: Result<
        SubscribeAwaitingSubscription,
        SubscribeHouseholdEventsError,
    >)
        ensures
            reply matches Err(e) ==> r == Err::<
                SubscribeAwaitingSubscription,
                SubscribeHouseholdEventsError,
            >(SubscribeHouseholdEventsError::HouseholdAccess(e)),
            reply is Ok ==> r == Ok::<SubscribeAwaitingSubscription, SubscribeHouseholdEventsError>(
                SubscribeAwaitingSubscription { household_id: self.household_id },
            ),
    {
        match reply {
            Err(e) => Err(SubscribeHouseholdEventsError::HouseholdAccess(e)),
            Ok(_) => Ok(SubscribeAwaitingSubscription { household_id: self.household_id }),
        }
    }
}

/// Waiting for a subscription to the events of `household_id`.
#[derive(Debug, Clone, Copy, PartialEq, Eq, Structural)]
pub struct SubscribeAwaitingSubscription {
    pub household_id: HouseholdId,
}

impl SubscribeAwaitingSubscription {
    /// The receiver is the answer; a failing subscriber fails the use case.
    pub fn on_subscribed<R>(self, reply: Result<R, HouseholdEventSubscriberError>) -> (r: Result<
        R,
        SubscribeHouseholdEventsError,
    >)
        ensures
            reply is Err ==> r == Err::<R, SubscribeHouseholdEventsError>(
                SubscribeHouseholdEventsError::Internal(InternalError::Failed),
            ),
            reply matches Ok(receiver) ==> r == Ok::<R, SubscribeHouseholdEventsError>(receiver),
    {
        match reply {
            Err(_) => Err(SubscribeHouseholdEventsError::Internal(InternalError::Failed)),
            Ok(receiver) => Ok(receiver),
        }
    }
}

impl<A, S: HouseholdEventSubscriber> SubscribeHouseholdEventsService<A, S> {
    /// Asks the subscriber for a receiver of the household's events. What the subscriber
    /// answers is not known here; a failure comes back as `Internal(Failed)`.
    pub fn subscribe(&self, stage: SubscribeAwaitingSubscription) -> (r: Result<
        S::Receiver,
        SubscribeHouseholdEventsError,
    >)
        ensures
            r is Err ==> r == Err::<S::Receiver, SubscribeHouseholdEventsError>(
                SubscribeHouseholdEventsError::Internal(InternalError::Failed),
            ),
    {
        let reply = self.household_events_subscriber.subscribe(stage.household_id);
        stage.on_subscribed(reply)
    }
}

} // verus!
