use vstd::prelude::*;

use crate::accounts::UserId;
use crate::households::domain::{Household, HouseholdId};
use crate::households::access_policy::{DefaultHouseholdAccessPolicy, membership_access};
use crate::households::in_memory_repository::{HouseholdStore, InMemoryHouseholdRepository};
use crate::households::ports::{HouseholdAccessError, HouseholdRepositoryError};
use crate::shared::InternalError;

verus! {

pub struct GetHouseholdCommand {
    pub household_id: HouseholdId,
    pub requester_id: UserId,
}

#[derive(Debug, Clone, Copy, PartialEq, Eq, Structural)]
pub enum GetHouseholdError {
    HouseholdAccess(HouseholdAccessError),
    Internal(InternalError),
}

/// Gives a member the household they belong to.
///
/// Stages: the command waits for the access policy's member check (`on_access`), then for
/// the household itself (`on_household`).
pub struct GetHouseholdService<H, A> {
    pub household_access_policy: A,
    pub household_repository: H,
}

impl<H, A> GetHouseholdService<H, A> {
    pub fn new(household_repository: H, household_access_policy: A) -> (r: Self)
        ensures
            r.household_repository == household_repository,
            r.household_access_policy == household_access_policy,
    {
        GetHouseholdService { household_access_policy, household_repository }
    }
}

impl GetHouseholdCommand {
    /// The requester must be a member; next, the household is loaded.
    pub fn on_access<M>(self, reply: Result<M, HouseholdAccessError>) -> (r: Result<
        GetHouseholdAwaitingHousehold,
        GetHouseholdError,
    >)
        ensures
            reply matches Err(e) ==> r == Err::<GetHouseholdAwaitingHousehold, GetHouseholdError>(
                GetHouseholdError::HouseholdAccess(e),
            ),
            reply is Ok ==> r == Ok::<GetHouseholdAwaitingHousehold, GetHouseholdError>(
                GetHouseholdAwaitingHousehold { household_id: self.household_id },
            ),
    {
        match reply {
            Err(e) => Err(GetHouseholdError::HouseholdAccess(e)),
            Ok(_) => Ok(GetHouseholdAwaitingHousehold { household_id: self.household_id }),
        }
    }
}

/// Waiting for the household `household_id`.
#[derive(Debug, Clone, Copy, PartialEq, Eq, Structural)]
pub struct GetHouseholdAwaitingHousehold {
    pub household_id: HouseholdId,
}

impl GetHouseholdAwaitingHousehold {
    /// The household found is the answer; a missing one is reported as not found.
    pub fn on_household(self, reply: Result<Option<Household>, HouseholdRepositoryError>) -> (r:
        Result<Household, GetHouseholdError>)
        ensures
            reply is Err ==> r == Err::<Household, GetHouseholdError>(
                GetHouseholdError::Internal(InternalError::Failed),
            ),
            reply == Ok::<Option<Household>, HouseholdRepositoryError>(None) ==> r == Err::<
                Household,
                GetHouseholdError,
            >(GetHouseholdError::HouseholdAccess(HouseholdAccessError::HouseholdNotFound)),
            reply matches Ok(Some(h)) ==> r == Ok::<Household, GetHouseholdError>(h),
    {
        match reply {
            Err(_) => Err(GetHouseholdError::Internal(InternalError::Failed)),
            Ok(None) => Err(GetHouseholdError::HouseholdAccess(HouseholdAccessError::HouseholdNotFound)),
            Ok(Some(household)) => Ok(household),
        }
    }
}

/// What a member asking for a household gets, given what the store holds: the household,
/// or why the requester may not see it.
pub open spec fn get_household_outcome(store: HouseholdStore, command: GetHouseholdCommand) -> Result<
    Household,
    GetHouseholdError,
> {
    match membership_access(store, command.household_id, command.requester_id) {
        Err(e) => Err(GetHouseholdError::HouseholdAccess(e)),
        Ok(_) => Ok(store.households[command.household_id]),
    }
}

impl<H, A> GetHouseholdService<H, A> {
    /// Runs the use case against an in-memory household store.
    pub fn execute_in_memory(&self, households: &InMemoryHouseholdRepository, command: GetHouseholdCommand) -> (r:
        Result<Household, GetHouseholdError>)
        ensures
            r == get_household_outcome(households@, command),
    {
        let household_id = command.household_id;
        let access = DefaultHouseholdAccessPolicy::new().require_member(
            households,
            household_id,
            command.requester_id,
        );
        let stage = match command.on_access(access) {
            Ok(stage) => stage,
            Err(e) => return Err(e),
        };
        stage.on_household(Ok(households.find_by_id(household_id)))
    }
}

} // verus!
