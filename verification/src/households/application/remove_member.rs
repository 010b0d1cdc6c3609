use vstd::prelude::*;

use crate::accounts::UserId;
use crate::households::domain::{HouseholdId, HouseholdMember, HouseholdRole};
use crate::households::access_policy::{DefaultHouseholdAccessPolicy, membership_access};
use crate::households::in_memory_repository::{HouseholdStore, InMemoryHouseholdRepository};
use crate::households::ports::{HouseholdAccessError, HouseholdRepositoryError};
use crate::shared::InternalError;

verus! {

pub struct RemoveHouseholdMemberCommand {
    pub requester_id: UserId,
    pub household_id: HouseholdId,
    pub member_id: UserId,
}

#[derive(Debug, Clone, Copy, PartialEq, Eq, Structural)]
pub enum RemoveHouseholdMemberError {
    HouseholdAccess(HouseholdAccessError),
    MemberNotFound,
    OwnerCannotBeRemoved,
    Internal(InternalError),
}

/// Removes a member from a household: the owner may remove anyone but the owner, any
/// member may remove themselves.
///
/// Stages: the command waits for the access policy's member check (`on_access`), then for
/// the membership to remove (`on_target`), then for its removal (`on_removed`).
pub struct RemoveHouseholdMemberService<H, A> {
    pub household_repository: H,
    pub household_access_policy: A,
}

impl<H, A> RemoveHouseholdMemberService<H, A> {
    pub fn new(household_repository: H, household_access_policy: A) -> (r: Self)
        ensures
            r.household_repository == household_repository,
            r.household_access_policy == household_access_policy,
    {
        RemoveHouseholdMemberService { household_repository, household_access_policy }
    }
}

impl RemoveHouseholdMemberCommand {
    /// A requester may remove themselves, or anyone if they own the household; next, the
    /// membership to remove is loaded.
    pub fn on_access(self, reply: Result<HouseholdMember, HouseholdAccessError>) -> (r: Result<
        RemoveMemberAwaitingTarget,
        RemoveHouseholdMemberError,
    >)
        ensures
            reply matches Err(e) ==> r == Err::<RemoveMemberAwaitingTarget, RemoveHouseholdMemberError>(
                RemoveHouseholdMemberError::HouseholdAccess(e),
            ),
            reply matches Ok(m) ==> (self.requester_id != self.member_id && m.role
                != HouseholdRole::Owner ==> r == Err::<
                RemoveMemberAwaitingTarget,
                RemoveHouseholdMemberError,
            >(RemoveHouseholdMemberError::HouseholdAccess(HouseholdAccessError::Forbidden))),
            reply matches Ok(m) ==> (self.requester_id == self.member_id || m.role
                == HouseholdRole::Owner ==> r == Ok::<
                RemoveMemberAwaitingTarget,
                RemoveHouseholdMemberError,
            >(
                RemoveMemberAwaitingTarget {
                    household_id: self.household_id,
                    member_id: self.member_id,
                },
            )),
    {
        match reply {
            Err(e) => Err(RemoveHouseholdMemberError::HouseholdAccess(e)),
            Ok(requester) => {
                let is_owner = match requester.role {
                    HouseholdRole::Owner => true,
                    HouseholdRole::Member => false,
                };
                if !(self.requester_id == self.member_id) && !is_owner {
                    Err(RemoveHouseholdMemberError::HouseholdAccess(HouseholdAccessError::Forbidden))
                } else {
                    Ok(
                        RemoveMemberAwaitingTarget {
                            household_id: self.household_id,
                            member_id: self.member_id,
                        },
                    )
                }
            },
        }
    }
}

/// Waiting for the membership of `member_id` in `household_id`.
#[derive(Debug, Clone, Copy, PartialEq, Eq, Structural)]
pub struct RemoveMemberAwaitingTarget {
    pub household_id: HouseholdId,
    pub member_id: UserId,
}

impl RemoveMemberAwaitingTarget {
    /// The membership must exist and must not be the owner's; next, it is removed.
    pub fn on_target(self, reply: Result<Option<HouseholdMember>, HouseholdRepositoryError>) -> (r:
        Result<RemoveMemberAwaitingRemoval, RemoveHouseholdMemberError>)
        ensures
            reply is Err ==> r == Err::<RemoveMemberAwaitingRemoval, RemoveHouseholdMemberError>(
                RemoveHouseholdMemberError::Internal(InternalError::Failed),
            ),
            reply == Ok::<Option<HouseholdMember>, HouseholdRepositoryError>(None) ==> r == Err::<
                RemoveMemberAwaitingRemoval,
                RemoveHouseholdMemberError,
            >(RemoveHouseholdMemberError::MemberNotFound),
            reply matches Ok(Some(t)) ==> (t.role == HouseholdRole::Owner ==> r == Err::<
                RemoveMemberAwaitingRemoval,
                RemoveHouseholdMemberError,
            >(RemoveHouseholdMemberError::OwnerCannotBeRemoved)),
            reply matches Ok(Some(t)) ==> (t.role == HouseholdRole::Member ==> r == Ok::<
                RemoveMemberAwaitingRemoval,
                RemoveHouseholdMemberError,
            >(
                RemoveMemberAwaitingRemoval {
                    household_id: self.household_id,
                    member_id: self.member_id,
                },
            )),
    {
        match reply {
            Err(_) => Err(RemoveHouseholdMemberError::Internal(InternalError::Failed)),
            Ok(None) => Err(RemoveHouseholdMemberError::MemberNotFound),
            Ok(Some(target)) => match target.role {
                HouseholdRole::Owner => Err(RemoveHouseholdMemberError::OwnerCannotBeRemoved),
                HouseholdRole::Member => Ok(
                    RemoveMemberAwaitingRemoval {
                        household_id: self.household_id,
                        member_id: self.member_id,
                    },
                ),
            },
        }
    }
}

/// Waiting for the household store to remove the membership of `member_id`.
#[derive(Debug, Clone, Copy, PartialEq, Eq, Structural)]
pub struct RemoveMemberAwaitingRemoval {
    pub household_id: HouseholdId,
    pub member_id: UserId,
}

impl RemoveMemberAwaitingRemoval {
    /// A membership that vanished meanwhile is reported as not found.
    pub fn on_removed(self, reply: Result<(), HouseholdRepositoryError>) -> (r: Result<
        (),
        RemoveHouseholdMemberError,
    >)
        ensures
            reply == Err::<(), HouseholdRepositoryError>(HouseholdRepositoryError::MemberNotFound)
                ==> r == Err::<(), RemoveHouseholdMemberError>(
                RemoveHouseholdMemberError::MemberNotFound,
            ),
            reply matches Err(e) ==> (e != HouseholdRepositoryError::MemberNotFound ==> r == Err::<
                (),
                RemoveHouseholdMemberError,
            >(RemoveHouseholdMemberError::Internal(InternalError::Failed))),
            reply is Ok ==> r == Ok::<(), RemoveHouseholdMemberError>(()),
    {
        match reply {
            Err(HouseholdRepositoryError::MemberNotFound) => Err(
                RemoveHouseholdMemberError::MemberNotFound,
            ),
            Err(_) => Err(RemoveHouseholdMemberError::Internal(InternalError::Failed)),
            Ok(()) => Ok(()),
        }
    }
}

/// What removing `command.member_id` from a household does, given what the store holds:
/// a member may remove themselves and the owner may remove anyone, but never the owner.
pub open spec fn remove_member_outcome(store: HouseholdStore, command: RemoveHouseholdMemberCommand) -> Result<
    (),
    RemoveHouseholdMemberError,
> {
    let target = (command.household_id, command.member_id);
    match membership_access(store, command.household_id, command.requester_id) {
        Err(e) => Err(RemoveHouseholdMemberError::HouseholdAccess(e)),
        Ok(requester) => if command.requester_id != command.member_id && requester.role
            != HouseholdRole::Owner {
            Err(RemoveHouseholdMemberError::HouseholdAccess(HouseholdAccessError::Forbidden))
        } else if !store.members.contains_key(target) {
            Err(RemoveHouseholdMemberError::MemberNotFound)
        } else if store.members[target].role == HouseholdRole::Owner {
            Err(RemoveHouseholdMemberError::OwnerCannotBeRemoved)
        } else {
            Ok(())
        },
    }
}

impl<H, A> RemoveHouseholdMemberService<H, A> {
    /// Runs the use case against an in-memory household store.
    pub fn execute_in_memory(
        &self,
        households: &mut InMemoryHouseholdRepository,
        command: RemoveHouseholdMemberCommand,
    ) -> (r: Result<(), RemoveHouseholdMemberError>)
        ensures
            r == remove_member_outcome(old(households)@, command),
            r is Ok ==> old(households)@.remove_member(command.household_id, command.member_id)
                == Ok::<HouseholdStore, HouseholdRepositoryError>(final(households)@),
            r is Err ==> final(households)@ == old(households)@,
    {
        let household_id = command.household_id;
        let requester_id = command.requester_id;
        let member_id = command.member_id;
        let access = DefaultHouseholdAccessPolicy::new().require_member(
            households,
            household_id,
            requester_id,
        );
        let stage = match command.on_access(access) {
            Ok(stage) => stage,
            Err(e) => return Err(e),
        };
        let stage = match stage.on_target(Ok(households.find_member(household_id, member_id))) {
            Ok(stage) => stage,
            Err(e) => return Err(e),
        };
        let removed = households.remove_member(household_id, member_id);
        stage.on_removed(removed)
    }
}

} // verus!
