use vstd::prelude::*;

use crate::accounts::{DisplayName, User, UserId};
use crate::households::domain::{HouseholdId, HouseholdMember, HouseholdRole};
use crate::households::ports::{HouseholdAccessError, HouseholdRepositoryError};
use crate::shared::InternalError;

verus! {

pub struct ListHouseholdMembersCommand {
    pub household_id: HouseholdId,
    pub requester_id: UserId,
}

/// A member of a household as members see them: who, under which name, with which role.
#[derive(Debug, Clone, PartialEq, Eq)]
pub struct HouseholdMemberInfo {
    pub user_id: UserId,
    pub display_name: DisplayName,
    pub role: HouseholdRole,
}

#[derive(Debug, Clone, Copy, PartialEq, Eq, Structural)]
pub enum ListHouseholdMembersError {
    NotFound,
    HouseholdAccess(HouseholdAccessError),
    Internal(InternalError),
}

/// Lists the members of a household, with their display names, for one of its members.
///
/// Stages: the command waits for the access policy's member check (`on_access`), then for
/// the memberships (`on_members`), then for the users they name (`on_users`).
pub struct ListHouseholdMembersService<H, A, U> {
    pub household_repository: H,
    pub household_access_policy: A,
    pub user_repository: U,
}

impl<H, A, U> ListHouseholdMembersService<H, A, U> {
    pub fn new(household_repository: H, household_access_policy: A, user_repository: U) -> (r: Self)
        ensures
            r.household_repository == household_repository,
            r.household_access_policy == household_access_policy,
            r.user_repository == user_repository,
    {
        ListHouseholdMembersService { household_repository, household_access_policy, user_repository }
    }
}

impl ListHouseholdMembersCommand {
    /// The requester must be a member; next, the memberships are loaded.
    pub fn on_access<M>(self, reply: Result<M, HouseholdAccessError>) -> (r: Result<
        ListMembersAwaitingMembers,
        ListHouseholdMembersError,
    >)
        ensures
            reply matches Err(e) ==> r == Err::<ListMembersAwaitingMembers, ListHouseholdMembersError>(
                ListHouseholdMembersError::HouseholdAccess(e),
            ),
            reply is Ok ==> r == Ok::<ListMembersAwaitingMembers, ListHouseholdMembersError>(
                ListMembersAwaitingMembers { household_id: self.household_id },
            ),
    {
        match reply {
            Err(e) => Err(ListHouseholdMembersError::HouseholdAccess(e)),
            Ok(_) => Ok(ListMembersAwaitingMembers { household_id: self.household_id }),
        }
    }
}

/// Waiting for the memberships of `household_id`.
#[derive(Debug, Clone, Copy, PartialEq, Eq, Structural)]
pub struct ListMembersAwaitingMembers {
    pub household_id: HouseholdId,
}

impl ListMembersAwaitingMembers {
    /// Next, the users that the memberships name are loaded, by `user_ids`.
    pub fn on_members(self, reply: Result<Vec<HouseholdMember>, HouseholdRepositoryError>) -> (r:
        Result<ListMembersAwaitingUsers, ListHouseholdMembersError>)
        ensures
            reply is Err ==> r == Err::<ListMembersAwaitingUsers, ListHouseholdMembersError>(
                ListHouseholdMembersError::Internal(InternalError::Failed),
            ),
            reply matches Ok(members) ==> (r matches Ok(next) && next.members@ == members@
                && next.user_ids@ == members@.map_values(|m: HouseholdMember| m.user_id)),
    {
        match reply {
            Err(_) => Err(ListHouseholdMembersError::Internal(InternalError::Failed)),
            Ok(members) => {
                let mut user_ids: Vec<UserId> = Vec::new();
                let mut i: usize = 0;
                while i < members.len()
                    invariant
                        i <= members@.len(),
                        user_ids@ == members@.take(i as int).map_values(|m: HouseholdMember| m.user_id),
                    decreases members@.len() - i,
                {
                    user_ids.push(members[i].user_id);
                    i += 1;
                    assert(user_ids@ =~= members@.take(i as int).map_values(
                        |m: HouseholdMember| m.user_id,
                    ));
                }
                assert(members@.take(i as int) =~= members@);
                Ok(ListMembersAwaitingUsers { members, user_ids })
            },
        }
    }
}

/// The user with id `id` that comes last in `users` (where a list holds several, the last
/// one is the one that counts).
pub open spec fn last_user_with_id(users: Seq<User>, id: UserId) -> Option<User>
    decreases users.len(),
{
    if users.len() == 0 {
        None
    } else if users.last().id == id {
        Some(users.last())
    } else {
        last_user_with_id(users.drop_last(), id)
    }
}

/// Every membership names a user of the list.
pub open spec fn all_members_known(members: Seq<HouseholdMember>, users: Seq<User>) -> bool {
    forall|i: int| 0 <= i < members.len() ==> #[trigger] last_user_with_id(users, members[i].user_id) is Some
}

/// What members see of a membership, given the users loaded for the household.
pub open spec fn member_info(member: HouseholdMember, users: Seq<User>) -> HouseholdMemberInfo {
    HouseholdMemberInfo {
        user_id: member.user_id,
        display_name: last_user_with_id(users, member.user_id)->Some_0.display_name,
        role: member.role,
    }
}

proof fn lemma_last_user_at(users: Seq<User>, id: UserId, k: int)
    requires
        0 <= k < users.len(),
        users[k].id == id,
        forall|j: int| k < j < users.len() ==> users[j].id != id,
    ensures
        last_user_with_id(users, id) == Some(users[k]),
    decreases users.len(),
{
    if k < users.len() - 1 {
        lemma_last_user_at(users.drop_last(), id, k);
    }
}

proof fn lemma_no_user_with_id(users: Seq<User>, id: UserId)
    requires
        forall|j: int| 0 <= j < users.len() ==> users[j].id != id,
    ensures
        last_user_with_id(users, id) is None,
    decreases users.len(),
{
    if users.len() > 0 {
        lemma_no_user_with_id(users.drop_last(), id);
    }
}

/// Position of the last user with id `id`.
fn last_user_position(users: &Vec<User>, id: UserId) -> (r: Option<usize>)
    ensures
        match r {
            Some(k) => k < users@.len() && last_user_with_id(users@, id) == Some(users@[k as int]),
            None => last_user_with_id(users@, id) is None,
        },
{
    let mut i = users.len();
    while i > 0
        invariant
            i <= users@.len(),
            forall|j: int| i <= j < users@.len() ==> users@[j].id != id,
        decreases i,
    {
        i -= 1;
        if users[i].id == id {
            proof {
                lemma_last_user_at(users@, id, i as int);
            }
            return Some(i);
        }
    }
    proof {
        lemma_no_user_with_id(users@, id);
    }
    None
}

/// Waiting for the users named by `user_ids`.
pub struct ListMembersAwaitingUsers {
    pub members: Vec<HouseholdMember>,
    pub user_ids: Vec<UserId>,
}

impl ListMembersAwaitingUsers {
    /// Pairs each membership, in order, with the display name of its user; a membership whose
    /// user is missing fails the use case.
    pub fn on_users<E>(self, reply: Result<Vec<User>, E>) -> (r: Result<
        Vec<HouseholdMemberInfo>,
        ListHouseholdMembersError,
    >)
        ensures
            reply is Err ==> r == Err::<Vec<HouseholdMemberInfo>, ListHouseholdMembersError>(
                ListHouseholdMembersError::Internal(InternalError::Failed),
            ),
            reply matches Ok(users) ==> (!all_members_known(self.members@, users@) ==> r == Err::<
                Vec<HouseholdMemberInfo>,
                ListHouseholdMembersError,
            >(ListHouseholdMembersError::Internal(InternalError::Failed))),
            reply matches Ok(users) ==> (all_members_known(self.members@, users@) ==> (r matches Ok(
                infos,
            ) && infos@.len() == self.members@.len() && forall|i: int|
                0 <= i < infos@.len() ==> #[trigger] infos@[i] == member_info(
                    self.members@[i],
                    users@,
                ))),
    {
        match reply {
            Err(_) => Err(ListHouseholdMembersError::Internal(InternalError::Failed)),
            Ok(users) => match member_infos(&self.members, &users) {
                None => Err(ListHouseholdMembersError::Internal(InternalError::Failed)),
                Some(infos) => Ok(infos),
            },
        }
    }
}

/// Pairs each membership with the display name of its user, if every user is listed.
fn member_infos(members: &Vec<HouseholdMember>, users: &Vec<User>) -> (r: Option<
    Vec<HouseholdMemberInfo>,
>)
    ensures
        !all_members_known(members@, users@) ==> r is None,
        all_members_known(members@, users@) ==> (r matches Some(infos) && infos@.len()
            == members@.len() && forall|i: int|
            0 <= i < infos@.len() ==> #[trigger] infos@[i] == member_info(members@[i], users@)),
{
    let mut infos: Vec<HouseholdMemberInfo> = Vec::new();
    let mut i: usize = 0;
    while i < members.len()
        invariant
            i <= members@.len(),
            infos@.len() == i,
            forall|j: int| 0 <= j < i ==> #[trigger] infos@[j] == member_info(members@[j], users@),
            forall|j: int|
                0 <= j < i ==> #[trigger] last_user_with_id(users@, members@[j].user_id) is Some,
        decreases members@.len() - i,
    {
        let member = members[i];
        match last_user_position(users, member.user_id) {
            None => {
                assert(last_user_with_id(users@, members@[i as int].user_id) is None);
                return None;
            },
            Some(k) => {
                infos.push(
                    HouseholdMemberInfo {
                        user_id: member.user_id,
                        display_name: users[k].display_name.duplicate(),
                        role: member.role,
                    },
                );
            },
        }
        i += 1;
    }
    Some(infos)
}

} // verus!
