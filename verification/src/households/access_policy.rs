use vstd::prelude::*;

use crate::accounts::UserId;
use crate::households::domain::{HouseholdId, HouseholdMember, HouseholdRole};
use crate::households::in_memory_repository::{HouseholdStore, InMemoryHouseholdRepository};
use crate::households::ports::{HouseholdAccessError, HouseholdRepositoryError};
use crate::shared::InternalError;

verus! {

/// What a check of `user` against household `household_id` answers, given what the store
/// holds: the user's membership, or why the user may not act on the household.
pub open spec fn membership_access(store: HouseholdStore, household_id: HouseholdId, user: UserId) -> Result<
    HouseholdMember,
    HouseholdAccessError,
> {
    if !store.households.contains_key(household_id) {
        Err(HouseholdAccessError::HouseholdNotFound)
    } else if !store.members.contains_key((household_id, user)) {
        Err(HouseholdAccessError::Forbidden)
    } else {
        Ok(store.members[(household_id, user)])
    }
}

/// The access rules for households: a user may act on a household they are a member of,
/// and on a household's own matters only as its owner.
///
/// A check runs in two steps against the household store: `begin_member_check` asks for
/// the household, `on_household` for the user's membership, and `on_membership` gives the
/// answer.
pub struct DefaultHouseholdAccessPolicy;

/// Waiting for household `household_id`, to check `user_id` against it.
#[derive(Debug, Clone, Copy, PartialEq, Eq, Structural)]
pub struct AccessAwaitingHousehold {
    pub household_id: HouseholdId,
    pub user_id: UserId,
    pub owner_required: bool,
}

/// Waiting for the membership of `user_id` in `household_id`.
#[derive(Debug, Clone, Copy, PartialEq, Eq, Structural)]
pub struct AccessAwaitingMembership {
    pub household_id: HouseholdId,
    pub user_id: UserId,
    pub owner_required: bool,
}

impl DefaultHouseholdAccessPolicy {
    pub fn new() -> (r: Self) {
        DefaultHouseholdAccessPolicy
    }

    /// Starts checking that `user_id` is a member of `household_id`.
    pub fn begin_member_check(&self, household_id: HouseholdId, user_id: UserId) -> (r:
        AccessAwaitingHousehold)
        ensures
            r == (AccessAwaitingHousehold { household_id, user_id, owner_required: false }),
    {
        AccessAwaitingHousehold { household_id, user_id, owner_required: false }
    }

    /// Starts checking that `user_id` owns `household_id`.
    pub fn begin_owner_check(&self, household_id: HouseholdId, user_id: UserId) -> (r:
        AccessAwaitingHousehold)
        ensures
            r == (AccessAwaitingHousehold { household_id, user_id, owner_required: true }),
    {
        AccessAwaitingHousehold { household_id, user_id, owner_required: true }
    }

    /// Checks against an in-memory store that `user_id` is a member of `household_id`.
    pub fn require_member(
        &self,
        repository: &InMemoryHouseholdRepository,
        household_id: HouseholdId,
        user_id: UserId,
    ) -> (r: Result<HouseholdMember, HouseholdAccessError>)
        ensures
            r == membership_access(repository@, household_id, user_id),
    {
        let check = self.begin_member_check(household_id, user_id);
        let next = match check.on_household(Ok(repository.find_by_id(household_id))) {
            Ok(next) => next,
            Err(e) => return Err(e),
        };
        next.on_membership(Ok(repository.find_member(household_id, user_id)))
    }

    /// Checks against an in-memory store that `user_id` owns `household_id`.
    pub fn require_owner(
        &self,
        repository: &InMemoryHouseholdRepository,
        household_id: HouseholdId,
        user_id: UserId,
    ) -> (r: Result<HouseholdMember, HouseholdAccessError>)
        ensures
            match membership_access(repository@, household_id, user_id) {
                Err(e) => r == Err::<HouseholdMember, HouseholdAccessError>(e),
                Ok(m) => if m.role == HouseholdRole::Owner {
                    r == Ok::<HouseholdMember, HouseholdAccessError>(m)
                } else {
                    r == Err::<HouseholdMember, HouseholdAccessError>(
                        HouseholdAccessError::Forbidden,
                    )
                },
            },
    {
        let check = self.begin_owner_check(household_id, user_id);
        let next = match check.on_household(Ok(repository.find_by_id(household_id))) {
            Ok(next) => next,
            Err(e) => return Err(e),
        };
        next.on_membership(Ok(repository.find_member(household_id, user_id)))
    }
}

impl AccessAwaitingHousehold {
    /// The household must exist; next, the user's membership is loaded.
    pub fn on_household<T>(self, reply: Result<Option<T>, HouseholdRepositoryError>) -> (r: Result<
        AccessAwaitingMembership,
        HouseholdAccessError,
    >)
        ensures
            reply is Err ==> r == Err::<AccessAwaitingMembership, HouseholdAccessError>(
                HouseholdAccessError::Internal(InternalError::Failed),
            ),
            reply == Ok::<Option<T>, HouseholdRepositoryError>(None) ==> r == Err::<
                AccessAwaitingMembership,
                HouseholdAccessError,
            >(HouseholdAccessError::HouseholdNotFound),
            reply matches Ok(Some(_)) ==> r == Ok::<AccessAwaitingMembership, HouseholdAccessError>(
                AccessAwaitingMembership {
                    household_id: self.household_id,
                    user_id: self.user_id,
                    owner_required: self.owner_required,
                },
            ),
    {
        match reply {
            Err(_) => Err(HouseholdAccessError::Internal(InternalError::Failed)),
            Ok(None) => Err(HouseholdAccessError::HouseholdNotFound),
            Ok(Some(_)) => Ok(
                AccessAwaitingMembership {
                    household_id: self.household_id,
                    user_id: self.user_id,
                    owner_required: self.owner_required,
                },
            ),
        }
    }
}

impl AccessAwaitingMembership {
    /// A member passes, and an owner passes a check that requires one; anyone else is
    /// forbidden.
    pub fn on_membership(self, reply: Result<Option<HouseholdMember>, HouseholdRepositoryError>) -> (r:
        Result<HouseholdMember, HouseholdAccessError>)
        ensures
            reply is Err ==> r == Err::<HouseholdMember, HouseholdAccessError>(
                HouseholdAccessError::Internal(InternalError::Failed),
            ),
            reply == Ok::<Option<HouseholdMember>, HouseholdRepositoryError>(None) ==> r == Err::<
                HouseholdMember,
                HouseholdAccessError,
            >(HouseholdAccessError::Forbidden),
            reply matches Ok(Some(m)) ==> (self.owner_required && m.role != HouseholdRole::Owner
                ==> r == Err::<HouseholdMember, HouseholdAccessError>(
                HouseholdAccessError::Forbidden,
            )),
            reply matches Ok(Some(m)) ==> (!(self.owner_required && m.role != HouseholdRole::Owner)
                ==> r == Ok::<HouseholdMember, HouseholdAccessError>(m)),
    {
        match reply {
            Err(_) => Err(HouseholdAccessError::Internal(InternalError::Failed)),
            Ok(None) => Err(HouseholdAccessError::Forbidden),
            Ok(Some(member)) => {
                let owner = match member.role {
                    HouseholdRole::Owner => true,
                    HouseholdRole::Member => false,
                };
                if self.owner_required && !owner {
                    Err(HouseholdAccessError::Forbidden)
                } else {
                    Ok(member)
                }
            },
        }
    }
}

} // verus!
