use vstd::prelude::*;

use crate::accounts::UserId;
use crate::households::application::pending_events::PendingHouseholdEvents;
use crate::households::domain::{HouseholdEvent, HouseholdId, HouseholdMember, HouseholdRole};
use crate::households::access_policy::{DefaultHouseholdAccessPolicy, membership_access};
use crate::households::in_memory_repository::{HouseholdStore, InMemoryHouseholdRepository};
use crate::households::ports::{HouseholdAccessError, HouseholdRepositoryError};
use crate::shared::InternalError;

verus! {

pub struct LeaveHouseholdCommand {
    pub requester_id: UserId,
    pub household_id: HouseholdId,
}

#[derive(Debug, Clone, Copy, PartialEq, Eq, Structural)]
pub enum LeaveHouseholdError {
    OwnerCannotLeave,
    Internal(InternalError),
    HouseholdAccess(HouseholdAccessError),
}

/// Lets a member who is not the owner leave a household.
///
/// Stages: the command waits for the access policy's member check (`on_access`), then for
/// the removal of the membership (`on_removed`); last the household change is published.
pub struct LeaveHouseholdService<H, A, P> {
    pub household_repository: H,
    pub household_access_policy: A,
    pub household_events_publisher: P,
}

impl<H, A, P> LeaveHouseholdService<H, A, P> {
    pub fn new(household_repository: H, household_access_policy: A, household_events_publisher: P) -> (r:
        Self)
        ensures
            r.household_repository == household_repository,
            r.household_access_policy == household_access_policy,
            r.household_events_publisher == household_events_publisher,
    {
        LeaveHouseholdService { household_repository, household_access_policy, household_events_publisher }
    }
}

impl LeaveHouseholdCommand {
    /// The requester must be a member and not the owner; next, their membership is removed.
    pub fn on_access(self, reply: Result<HouseholdMember, HouseholdAccessError>) -> (r: Result<
        LeaveHouseholdAwaitingRemoval,
        LeaveHouseholdError,
    >)
        ensures
            reply matches Err(e) ==> r == Err::<LeaveHouseholdAwaitingRemoval, LeaveHouseholdError>(
                LeaveHouseholdError::HouseholdAccess(e),
            ),
            reply matches Ok(m) ==> (m.role == HouseholdRole::Owner ==> r == Err::<
                LeaveHouseholdAwaitingRemoval,
                LeaveHouseholdError,
            >(LeaveHouseholdError::OwnerCannotLeave)),
            reply matches Ok(m) ==> (m.role == HouseholdRole::Member ==> r == Ok::<
                LeaveHouseholdAwaitingRemoval,
                LeaveHouseholdError,
            >(
                LeaveHouseholdAwaitingRemoval {
                    household_id: self.household_id,
                    requester_id: self.requester_id,
                },
            )),
    {
        match reply {
            Err(e) => Err(LeaveHouseholdError::HouseholdAccess(e)),
            Ok(requester) => match requester.role {
                HouseholdRole::Owner => Err(LeaveHouseholdError::OwnerCannotLeave),
                HouseholdRole::Member => Ok(
                    LeaveHouseholdAwaitingRemoval {
                        household_id: self.household_id,
                        requester_id: self.requester_id,
                    },
                ),
            },
        }
    }
}

/// Waiting for the household store to remove the membership of `requester_id`.
#[derive(Debug, Clone, Copy, PartialEq, Eq, Structural)]
pub struct LeaveHouseholdAwaitingRemoval {
    pub household_id: HouseholdId,
    pub requester_id: UserId,
}

impl LeaveHouseholdAwaitingRemoval {
    /// A membership that vanished meanwhile is reported as forbidden; next, the household
    /// change is published.
    pub fn on_removed(self, reply: Result<(), HouseholdRepositoryError>) -> (r: Result<
        PendingHouseholdEvents,
        LeaveHouseholdError,
    >)
        ensures
            reply == Err::<(), HouseholdRepositoryError>(HouseholdRepositoryError::MemberNotFound)
                ==> r == Err::<PendingHouseholdEvents, LeaveHouseholdError>(
                LeaveHouseholdError::HouseholdAccess(HouseholdAccessError::Forbidden),
            ),
            reply matches Err(e) ==> (e != HouseholdRepositoryError::MemberNotFound ==> r == Err::<
                PendingHouseholdEvents,
                LeaveHouseholdError,
            >(LeaveHouseholdError::Internal(InternalError::Failed))),
            reply is Ok ==> (r matches Ok(p) && p.household_id == self.household_id && p.events@
                == seq![HouseholdEvent::HouseholdChanged]),
    {
        match reply {
            Err(HouseholdRepositoryError::MemberNotFound) => Err(
                LeaveHouseholdError::HouseholdAccess(HouseholdAccessError::Forbidden),
            ),
            Err(_) => Err(LeaveHouseholdError::Internal(InternalError::Failed)),
            Ok(()) => Ok(
                PendingHouseholdEvents {
                    household_id: self.household_id,
                    events: vec![HouseholdEvent::HouseholdChanged],
                },
            ),
        }
    }
}

/// What leaving a household does, given what the store holds: a member may leave, its
/// owner may not.
pub open spec fn leave_outcome(store: HouseholdStore, command: LeaveHouseholdCommand) -> Result<
    (),
    LeaveHouseholdError,
> {
    match membership_access(store, command.household_id, command.requester_id) {
        Err(e) => Err(LeaveHouseholdError::HouseholdAccess(e)),
        Ok(requester) => if requester.role == HouseholdRole::Owner {
            Err(LeaveHouseholdError::OwnerCannotLeave)
        } else {
            Ok(())
        },
    }
}

impl<H, A, P> LeaveHouseholdService<H, A, P> {
    /// Runs the use case against an in-memory household store; the events to publish come
    /// back.
    pub fn execute_in_memory(&self, households: &mut InMemoryHouseholdRepository, command: LeaveHouseholdCommand) -> (r:
        Result<PendingHouseholdEvents, LeaveHouseholdError>)
        ensures
            match leave_outcome(old(households)@, command) {
                Ok(()) => {
                    &&& r matches Ok(p) && p.household_id == command.household_id && p.events@
                        == seq![HouseholdEvent::HouseholdChanged]
                    &&& old(households)@.remove_member(command.household_id, command.requester_id)
                        == Ok::<HouseholdStore, HouseholdRepositoryError>(final(households)@)
                },
                Err(e) => r == Err::<PendingHouseholdEvents, LeaveHouseholdError>(e)
                    && final(households)@ == old(households)@,
            },
    {
        let household_id = command.household_id;
        let requester_id = command.requester_id;
        let access = DefaultHouseholdAccessPolicy::new().require_member(
            households,
            household_id,
            requester_id,
        );
        let stage = match command.on_access(access) {
            Ok(stage) => stage,
            Err(e) => return Err(e),
        };
        let removed = households.remove_member(household_id, requester_id);
        stage.on_removed(removed)
    }
}

} // verus!
