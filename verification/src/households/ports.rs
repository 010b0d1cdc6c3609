use vstd::prelude::*;

use crate::households::domain::{HouseholdEvent, HouseholdId};
use crate::shared::{InternalError, PersistenceError};

verus! {

/// Why a household store refused or failed an operation.
#[derive(Debug, Clone, Copy, PartialEq, Eq, Structural)]
pub enum HouseholdRepositoryError {
    HouseholdNotFound,
    HouseholdAlreadyExists,
    PersonalHouseholdAlreadyExists,
    MemberNotFound,
    MemberAlreadyExists,
    /// The household and its first member do not form a valid whole.
    InvalidAggregate,
    InvalidStoredData,
    Persistence(PersistenceError),
}

/// Why a user may not act on a household.
#[derive(Debug, Clone, Copy, PartialEq, Eq, Structural)]
pub enum HouseholdAccessError {
    HouseholdNotFound,
    Forbidden,
    Internal(InternalError),
}

#[derive(Debug, Clone, Copy, PartialEq, Eq, Structural)]
pub enum HouseholdEventPublisherError {
    Unavailable,
}

#[derive(Debug, Clone, Copy, PartialEq, Eq, Structural)]
pub enum HouseholdEventSubscriberError {
    Unavailable,
}

#[derive(Debug, Clone, Copy, PartialEq, Eq, Structural)]
pub enum HouseholdEventReceiverError {
    Closed,
    Lagged,
}

/// Delivers household events to whoever follows the household.
pub trait HouseholdEventPublisher {
    fn publish(&self, household_id: HouseholdId, event: HouseholdEvent) -> Result<
        (),
        HouseholdEventPublisherError,
    >;
}

/// Opens receivers of a household's events.
pub trait HouseholdEventSubscriber {
    /// What a subscription hands out: something to receive the household's events from.
    type Receiver;

    fn subscribe(&self, household_id: HouseholdId) -> Result<
        Self::Receiver,
        HouseholdEventSubscriberError,
    >;
}

} // verus!
