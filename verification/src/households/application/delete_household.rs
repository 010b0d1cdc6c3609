use vstd::prelude::*;

use crate::accounts::UserId;
use crate::households::application::pending_events::PendingHouseholdEvents;
use crate::households::domain::{HouseholdEvent, HouseholdId, HouseholdMember};
use crate::households::ports::{HouseholdAccessError, HouseholdRepositoryError};
use crate::shared::InternalError;

verus! {

pub struct DeleteHouseholdCommand {
    pub requester_id: UserId,
    pub household_id: HouseholdId,
}

#[derive(Debug, Clone, Copy, PartialEq, Eq, Structural)]
pub enum DeleteHouseholdError {
    HouseholdHasOtherMembers,
    Internal(InternalError),
    HouseholdAccess(HouseholdAccessError),
}

/// Deletes a household on behalf of its owner, as long as nobody else is a member.
///
/// Stages: the command waits for the access policy's owner check (`on_owner_check`), then
/// for the household's members (`on_members`), then for the deletion (`on_deleted`); last the
/// household change is published.
pub struct DeleteHouseholdService<H, A, P> {
    pub household_repository: H,
    pub household_access_policy: A,
    pub household_events_publisher: P,
}

impl<H, A, P> DeleteHouseholdService<H, A, P> {
    pub fn new(household_repository: H, household_access_policy: A, household_events_publisher: P) -> (r:
        Self)
        ensures
            r.household_repository == household_repository,
            r.household_access_policy == household_access_policy,
            r.household_events_publisher == household_events_publisher,
    {
        DeleteHouseholdService { household_repository, household_access_policy, household_events_publisher }
    }
}

impl DeleteHouseholdCommand {
    /// The requester must own the household; next, its members are listed.
    pub fn on_owner_check<M>(self, reply: Result<M, HouseholdAccessError>) -> (r: Result<
        DeleteHouseholdAwaitingMembers,
        DeleteHouseholdError,
    >)
        ensures
            reply matches Err(e) ==> r == Err::<DeleteHouseholdAwaitingMembers, DeleteHouseholdError>(
                DeleteHouseholdError::HouseholdAccess(e),
            ),
            reply is Ok ==> r == Ok::<DeleteHouseholdAwaitingMembers, DeleteHouseholdError>(
                DeleteHouseholdAwaitingMembers { household_id: self.household_id },
            ),
    {
        match reply {
            Err(e) => Err(DeleteHouseholdError::HouseholdAccess(e)),
            Ok(_) => Ok(DeleteHouseholdAwaitingMembers { household_id: self.household_id }),
        }
    }
}

/// Waiting for the members of `household_id`.
#[derive(Debug, Clone, Copy, PartialEq, Eq, Structural)]
pub struct DeleteHouseholdAwaitingMembers {
    pub household_id: HouseholdId,
}

impl DeleteHouseholdAwaitingMembers {
    /// The owner may only delete a household they are alone in; next, it is deleted.
    pub fn on_members(self, reply: Result<Vec<HouseholdMember>, HouseholdRepositoryError>) -> (r:
        Result<DeleteHouseholdAwaitingDeletion, DeleteHouseholdError>)
        ensures
            reply is Err ==> r == Err::<DeleteHouseholdAwaitingDeletion, DeleteHouseholdError>(
                DeleteHouseholdError::Internal(InternalError::Failed),
            ),
            reply matches Ok(members) ==> (members@.len() > 1 ==> r == Err::<
                DeleteHouseholdAwaitingDeletion,
                DeleteHouseholdError,
            >(DeleteHouseholdError::HouseholdHasOtherMembers)),
            reply matches Ok(members) ==> (members@.len() <= 1 ==> r == Ok::<
                DeleteHouseholdAwaitingDeletion,
                DeleteHouseholdError,
            >(DeleteHouseholdAwaitingDeletion { household_id: self.household_id })),
    {
        match reply {
            Err(_) => Err(DeleteHouseholdError::Internal(InternalError::Failed)),
            Ok(members) => {
                if members.len() > 1 {
                    Err(DeleteHouseholdError::HouseholdHasOtherMembers)
                } else {
                    Ok(DeleteHouseholdAwaitingDeletion { household_id: self.household_id })
                }
            },
        }
    }
}

/// Waiting for the household store to delete `household_id`.
#[derive(Debug, Clone, Copy, PartialEq, Eq, Structural)]
pub struct DeleteHouseholdAwaitingDeletion {
    pub household_id: HouseholdId,
}

impl DeleteHouseholdAwaitingDeletion {
    /// Next, the household change is published.
    pub fn on_deleted(self, reply: Result<(), HouseholdRepositoryError>) -> (r: Result<
        PendingHouseholdEvents,
        DeleteHouseholdError,
    >)
        ensures
            reply is Err ==> r == Err::<PendingHouseholdEvents, DeleteHouseholdError>(
                DeleteHouseholdError::Internal(InternalError::Failed),
            ),
            reply is Ok ==> (r matches Ok(p) && p.household_id == self.household_id && p.events@
                == seq![HouseholdEvent::HouseholdChanged]),
    {
        match reply {
            Err(_) => Err(DeleteHouseholdError::Internal(InternalError::Failed)),
            Ok(()) => Ok(
                PendingHouseholdEvents {
                    household_id: self.household_id,
                    events: vec![HouseholdEvent::HouseholdChanged],
                },
            ),
        }
    }
}

} // verus!
