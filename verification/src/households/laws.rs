use vstd::prelude::*;

use crate::accounts::{User, UserId, is_email_text, lemma_user_with_email, user_with_email};
use crate::households::access_policy::membership_access;
use crate::households::application::add_member::{
    AddHouseholdMemberCommand, AddHouseholdMemberError, add_member_outcome,
};
use crate::households::application::get_household::{
    GetHouseholdCommand, GetHouseholdError, get_household_outcome,
};
use crate::households::application::leave_household::{
    LeaveHouseholdCommand, LeaveHouseholdError, leave_outcome,
};
use crate::households::application::remove_member::{
    RemoveHouseholdMemberCommand, RemoveHouseholdMemberError, remove_member_outcome,
};
use crate::households::application::update_name::{
    RenameHouseholdCommand, RenameHouseholdError, rename_outcome, renamed_in,
};
use crate::households::domain::{
    Household, HouseholdId, HouseholdKind, HouseholdMember, HouseholdRole,
};
use crate::households::in_memory_repository::HouseholdStore;
use crate::households::ports::{HouseholdAccessError, HouseholdRepositoryError};
use crate::shared::is_blank_text;

verus! {

impl HouseholdStore {
    /// Every membership is filed under its own household and user and belongs to a stored
    /// household, every household is filed under its own id, and no user has two personal
    /// households.
    pub open spec fn is_consistent(self) -> bool {
        &&& forall|k: (HouseholdId, UserId)| #[trigger]
            self.members.contains_key(k) ==> {
                &&& self.members[k].household_id == k.0
                &&& self.members[k].user_id == k.1
                &&& self.households.contains_key(k.0)
            }
        &&& forall|id: HouseholdId| #[trigger]
            self.households.contains_key(id) ==> self.households[id].id == id
        &&& forall|a: HouseholdId, b: HouseholdId, user: UserId|
            #[trigger] self.is_personal_household_of(a, user)
                && #[trigger] self.is_personal_household_of(b, user) ==> a == b
    }
}

/// The empty store is consistent.
pub proof fn lemma_empty_store_is_consistent()
    ensures
        HouseholdStore::empty().is_consistent(),
{
}

/// Creating a household with its owner keeps the store consistent, as long as a personal
/// household names its owner as the user it belongs to.
pub proof fn lemma_create_with_owner_keeps_consistency(
    store: HouseholdStore,
    household: Household,
    owner: HouseholdMember,
)
    requires
        store.is_consistent(),
        household.kind == HouseholdKind::Personal ==> household.personal_owner_id == Some(
            owner.user_id,
        ),
    ensures
        store.create_with_owner(household, owner) matches Ok(next) ==> next.is_consistent(),
{
    if let Ok(next) = store.create_with_owner(household, owner) {
        assert forall|a: HouseholdId, b: HouseholdId, user: UserId|
            #[trigger] next.is_personal_household_of(a, user)
                && #[trigger] next.is_personal_household_of(b, user) implies a == b by {
            if a != household.id && b != household.id {
                assert(store.is_personal_household_of(a, user));
                assert(store.is_personal_household_of(b, user));
            } else if a == household.id && b != household.id {
                assert(store.is_personal_household_of(b, user));
            } else if a != household.id && b == household.id {
                assert(store.is_personal_household_of(a, user));
            }
        }
    }
}

/// Adding a membership keeps the store consistent.
pub proof fn lemma_add_member_keeps_consistency(store: HouseholdStore, member: HouseholdMember)
    requires
        store.is_consistent(),
    ensures
        store.add_member(member) matches Ok(next) ==> next.is_consistent(),
{
    if let Ok(next) = store.add_member(member) {
        assert forall|a: HouseholdId, b: HouseholdId, user: UserId|
            #[trigger] next.is_personal_household_of(a, user)
                && #[trigger] next.is_personal_household_of(b, user) implies a == b by {
            assert(store.is_personal_household_of(a, user));
            assert(store.is_personal_household_of(b, user));
        }
    }
}

/// Removing a membership keeps the store consistent.
pub proof fn lemma_remove_member_keeps_consistency(
    store: HouseholdStore,
    household_id: HouseholdId,
    user_id: UserId,
)
    requires
        store.is_consistent(),
    ensures
        store.remove_member(household_id, user_id) matches Ok(next) ==> next.is_consistent(),
{
    if let Ok(next) = store.remove_member(household_id, user_id) {
        assert forall|a: HouseholdId, b: HouseholdId, user: UserId|
            #[trigger] next.is_personal_household_of(a, user)
                && #[trigger] next.is_personal_household_of(b, user) implies a == b by {
            assert(store.is_personal_household_of(a, user));
            assert(store.is_personal_household_of(b, user));
        }
    }
}

/// Replacing a household by a version of it with the same kind and the same personal owner
/// keeps the store consistent.
pub proof fn lemma_update_keeps_consistency(store: HouseholdStore, household: Household)
    requires
        store.is_consistent(),
        store.households.contains_key(household.id) ==> {
            &&& store.households[household.id].kind == household.kind
            &&& store.households[household.id].personal_owner_id == household.personal_owner_id
        },
    ensures
        store.update(household) matches Ok(next) ==> next.is_consistent(),
{
    if let Ok(next) = store.update(household) {
        assert forall|a: HouseholdId, b: HouseholdId, user: UserId|
            #[trigger] next.is_personal_household_of(a, user)
                && #[trigger] next.is_personal_household_of(b, user) implies a == b by {
            assert(store.is_personal_household_of(a, user));
            assert(store.is_personal_household_of(b, user));
        }
    }
}

/// A household that was created is found by its id, and its owner's membership is found
/// under the household and the owner.
pub proof fn lemma_created_household_can_be_found(
    store: HouseholdStore,
    household: Household,
    owner: HouseholdMember,
)
    ensures
        store.create_with_owner(household, owner) matches Ok(next) ==> {
            &&& next.find_by_id(household.id) == Some(household)
            &&& next.find_member(household.id, owner.user_id) == Some(owner)
        },
{
}

/// Once a user has a personal household, a second personal household owned by the same user
/// is refused, whatever its id.
pub proof fn lemma_second_personal_household_is_rejected(
    store: HouseholdStore,
    first: Household,
    first_owner: HouseholdMember,
    second: Household,
    second_owner: HouseholdMember,
)
    requires
        first.kind == HouseholdKind::Personal,
        first.personal_owner_id == Some(first_owner.user_id),
        second.kind == HouseholdKind::Personal,
        second_owner.user_id == first_owner.user_id,
        HouseholdStore::valid_aggregate(second, second_owner),
    ensures
        store.create_with_owner(first, first_owner) matches Ok(next) ==> next.create_with_owner(
            second,
            second_owner,
        ) == Err::<HouseholdStore, HouseholdRepositoryError>(
            HouseholdRepositoryError::PersonalHouseholdAlreadyExists,
        ),
{
    if let Ok(next) = store.create_with_owner(first, first_owner) {
        assert(next.is_personal_household_of(first.id, first_owner.user_id));
    }
}

/// A membership that was added is found, and no other membership changes.
pub proof fn lemma_added_member_can_be_found(store: HouseholdStore, member: HouseholdMember)
    ensures
        store.add_member(member) matches Ok(next) ==> {
            &&& next.find_member(member.household_id, member.user_id) == Some(member)
            &&& forall|h: HouseholdId, u: UserId|
                (h, u) != (member.household_id, member.user_id) ==> #[trigger] next.find_member(h, u)
                    == store.find_member(h, u)
            &&& next.households == store.households
        },
{
}

/// The same membership cannot be added twice.
pub proof fn lemma_member_cannot_be_added_twice(store: HouseholdStore, member: HouseholdMember)
    ensures
        store.add_member(member) matches Ok(next) ==> next.add_member(member) == Err::<
            HouseholdStore,
            HouseholdRepositoryError,
        >(HouseholdRepositoryError::MemberAlreadyExists),
{
}

/// Removing a membership that was just added gives the store back as it was.
pub proof fn lemma_remove_member_undoes_add_member(store: HouseholdStore, member: HouseholdMember)
    ensures
        store.add_member(member) matches Ok(next) ==> next.remove_member(
            member.household_id,
            member.user_id,
        ) == Ok::<HouseholdStore, HouseholdRepositoryError>(store),
{
    if let Ok(next) = store.add_member(member) {
        let key = (member.household_id, member.user_id);
        assert(next.members.remove(key) =~= store.members);
    }
}

/// A membership that was removed is no longer found, and no other membership changes.
pub proof fn lemma_removed_member_is_gone(
    store: HouseholdStore,
    household_id: HouseholdId,
    user_id: UserId,
)
    ensures
        store.remove_member(household_id, user_id) matches Ok(next) ==> {
            &&& next.find_member(household_id, user_id) is None
            &&& forall|h: HouseholdId, u: UserId|
                (h, u) != (household_id, user_id) ==> #[trigger] next.find_member(h, u)
                    == store.find_member(h, u)
            &&& next.households == store.households
        },
{
}

/// A household that was updated is loaded as it was written, and memberships stay as they
/// were.
pub proof fn lemma_updated_household_can_be_loaded(store: HouseholdStore, household: Household)
    ensures
        store.update(household) matches Ok(next) ==> {
            &&& next.find_by_id(household.id) == Some(household)
            &&& next.members == store.members
        },
{
}

/// After a household is created, every listing of its owner's households holds it.
pub proof fn lemma_created_household_is_listed_for_owner(
    store: HouseholdStore,
    household: Household,
    owner: HouseholdMember,
    listing: Seq<Household>,
)
    ensures
        store.create_with_owner(household, owner) matches Ok(next) ==> (next.lists_households_of(
            owner.user_id,
            listing,
        ) ==> listing.contains(household)),
{
    if let Ok(next) = store.create_with_owner(household, owner) {
        if next.lists_households_of(owner.user_id, listing) {
            assert(next.members.contains_key((household.id, owner.user_id)));
            let i = choose|i: int| 0 <= i < listing.len() && listing[i].id == household.id;
            assert(listing[i] == household);
        }
    }
}

/// After a membership is added, every listing of the household's members holds it.
pub proof fn lemma_added_member_is_listed(
    store: HouseholdStore,
    member: HouseholdMember,
    listing: Seq<HouseholdMember>,
)
    ensures
        store.add_member(member) matches Ok(next) ==> (next.lists_members_of(
            member.household_id,
            listing,
        ) ==> listing.contains(member)),
{
    if let Ok(next) = store.add_member(member) {
        if next.lists_members_of(member.household_id, listing) {
            assert(next.members.contains_key((member.household_id, member.user_id)));
            let i = choose|i: int| 0 <= i < listing.len() && listing[i].user_id == member.user_id;
            assert(listing[i] == member);
        }
    }
}

/// The owner of a household that was just created passes the member check as its owner.
pub proof fn lemma_creator_is_granted_access(
    store: HouseholdStore,
    household: Household,
    owner: HouseholdMember,
)
    ensures
        store.create_with_owner(household, owner) matches Ok(next) ==> membership_access(
            next,
            household.id,
            owner.user_id,
        ) == Ok::<HouseholdMember, HouseholdAccessError>(owner) && owner.role
            == HouseholdRole::Owner,
{
}

/// A user who was just added passes the member check, with the membership that was added.
pub proof fn lemma_added_member_is_granted_access(store: HouseholdStore, member: HouseholdMember)
    ensures
        store.add_member(member) matches Ok(next) ==> membership_access(
            next,
            member.household_id,
            member.user_id,
        ) == Ok::<HouseholdMember, HouseholdAccessError>(member),
{
}

/// A user whose membership was just removed is refused by the member check.
pub proof fn lemma_removed_member_is_refused_access(
    store: HouseholdStore,
    household_id: HouseholdId,
    user_id: UserId,
)
    requires
        store.is_consistent(),
    ensures
        store.remove_member(household_id, user_id) matches Ok(next) ==> membership_access(
            next,
            household_id,
            user_id,
        ) == Err::<HouseholdMember, HouseholdAccessError>(HouseholdAccessError::Forbidden),
{
    if let Ok(next) = store.remove_member(household_id, user_id) {
        assert(store.members.contains_key((household_id, user_id)));
        assert(store.households.contains_key(household_id));
    }
}

impl HouseholdStore {
    /// `user` is a member who owns household `id`.
    pub open spec fn owned_by(self, id: HouseholdId, user: UserId) -> bool {
        &&& self.members.contains_key((id, user))
        &&& self.members[(id, user)].role == HouseholdRole::Owner
    }

    /// Every stored household has a member who owns it.
    pub open spec fn every_household_has_owner(self) -> bool {
        forall|id: HouseholdId| #[trigger]
            self.households.contains_key(id) ==> exists|user: UserId| #[trigger]
                self.owned_by(id, user)
    }
}

/// A household created with its owner has an owner, and the households already stored keep
/// theirs.
pub proof fn lemma_create_with_owner_keeps_owners(
    store: HouseholdStore,
    household: Household,
    owner: HouseholdMember,
)
    requires
        store.is_consistent(),
        store.every_household_has_owner(),
    ensures
        store.create_with_owner(household, owner) matches Ok(next)
            ==> next.every_household_has_owner(),
{
    if let Ok(next) = store.create_with_owner(household, owner) {
        assert forall|id: HouseholdId| #[trigger]
            next.households.contains_key(id) implies exists|user: UserId| #[trigger]
                next.owned_by(id, user) by {
            if id == household.id {
                assert(next.owned_by(id, owner.user_id));
            } else {
                let user = choose|user: UserId| #[trigger] store.owned_by(id, user);
                assert(next.owned_by(id, user));
            }
        }
    }
}

/// Adding a membership never takes an owner away from a household.
pub proof fn lemma_add_member_keeps_owners(store: HouseholdStore, member: HouseholdMember)
    requires
        store.every_household_has_owner(),
    ensures
        store.add_member(member) matches Ok(next) ==> next.every_household_has_owner(),
{
    if let Ok(next) = store.add_member(member) {
        assert forall|id: HouseholdId| #[trigger]
            next.households.contains_key(id) implies exists|user: UserId| #[trigger]
                next.owned_by(id, user) by {
            let user = choose|user: UserId| #[trigger] store.owned_by(id, user);
            assert(next.owned_by(id, user));
        }
    }
}

/// Removing a membership that does not own its household keeps every household owned.
proof fn lemma_removing_a_plain_member_keeps_owners(
    store: HouseholdStore,
    household_id: HouseholdId,
    user_id: UserId,
)
    requires
        store.every_household_has_owner(),
        store.members.contains_key((household_id, user_id)),
        store.members[(household_id, user_id)].role != HouseholdRole::Owner,
    ensures
        store.remove_member(household_id, user_id) matches Ok(next)
            && next.every_household_has_owner(),
{
    let next = store.remove_member(household_id, user_id)->Ok_0;
    assert forall|id: HouseholdId| #[trigger]
        next.households.contains_key(id) implies exists|user: UserId| #[trigger]
            next.owned_by(id, user) by {
        let user = choose|user: UserId| #[trigger] store.owned_by(id, user);
        assert(next.owned_by(id, user));
    }
}

/// The remove-member use case never removes an owner: every household keeps its owner.
pub proof fn lemma_remove_member_use_case_keeps_owners(
    store: HouseholdStore,
    command: RemoveHouseholdMemberCommand,
)
    requires
        store.every_household_has_owner(),
    ensures
        remove_member_outcome(store, command) is Ok ==> (store.remove_member(
            command.household_id,
            command.member_id,
        ) matches Ok(next) && next.every_household_has_owner()),
{
    if remove_member_outcome(store, command) is Ok {
        lemma_removing_a_plain_member_keeps_owners(store, command.household_id, command.member_id);
    }
}

/// An owner cannot leave: every household keeps its owner when a member leaves.
pub proof fn lemma_leave_use_case_keeps_owners(store: HouseholdStore, command: LeaveHouseholdCommand)
    requires
        store.every_household_has_owner(),
    ensures
        leave_outcome(store, command) is Ok ==> (store.remove_member(
            command.household_id,
            command.requester_id,
        ) matches Ok(next) && next.every_household_has_owner()),
{
    if leave_outcome(store, command) is Ok {
        lemma_removing_a_plain_member_keeps_owners(
            store,
            command.household_id,
            command.requester_id,
        );
    }
}

/// Renaming a household keeps every household owned.
pub proof fn lemma_rename_keeps_owners(
    before: HouseholdStore,
    after: HouseholdStore,
    id: HouseholdId,
    name: Seq<char>,
    now: i64,
)
    requires
        before.every_household_has_owner(),
        renamed_in(before, after, id, name, now),
    ensures
        after.every_household_has_owner(),
{
    assert forall|hid: HouseholdId| #[trigger]
        after.households.contains_key(hid) implies exists|user: UserId| #[trigger]
            after.owned_by(hid, user) by {
        assert(before.households.contains_key(hid));
        let user = choose|user: UserId| #[trigger] before.owned_by(hid, user);
        assert(after.owned_by(hid, user));
    }
}

/// The membership the add-member use case stores is a plain membership of the user with the
/// requested e-mail address, and that user then passes the member check.
pub proof fn lemma_add_member_use_case_grants_membership(
    store: HouseholdStore,
    users: Seq<User>,
    command: AddHouseholdMemberCommand,
    now: i64,
)
    ensures
        add_member_outcome(store, users, command, now) matches Ok(member) ==> {
            &&& member.role == HouseholdRole::Member
            &&& member.household_id == command.household_id
            &&& store.add_member(member) matches Ok(next) && membership_access(
                next,
                command.household_id,
                member.user_id,
            ) == Ok::<HouseholdMember, HouseholdAccessError>(member)
        },
{
}

/// A member removed by the remove-member use case no longer passes the member check.
pub proof fn lemma_remove_member_use_case_revokes_membership(
    store: HouseholdStore,
    command: RemoveHouseholdMemberCommand,
)
    requires
        store.is_consistent(),
    ensures
        remove_member_outcome(store, command) is Ok ==> (store.remove_member(
            command.household_id,
            command.member_id,
        ) matches Ok(next) && membership_access(next, command.household_id, command.member_id)
            == Err::<HouseholdMember, HouseholdAccessError>(HouseholdAccessError::Forbidden)),
{
    if remove_member_outcome(store, command) is Ok {
        lemma_removed_member_is_refused_access(store, command.household_id, command.member_id);
    }
}

/// Renaming a household keeps the store consistent: the household keeps its id, its kind
/// and its personal owner.
pub proof fn lemma_rename_keeps_consistency(
    before: HouseholdStore,
    after: HouseholdStore,
    id: HouseholdId,
    name: Seq<char>,
    now: i64,
)
    requires
        before.is_consistent(),
        renamed_in(before, after, id, name, now),
    ensures
        after.is_consistent(),
{
    assert forall|a: HouseholdId, b: HouseholdId, user: UserId|
        #[trigger] after.is_personal_household_of(a, user)
            && #[trigger] after.is_personal_household_of(b, user) implies a == b by {
        assert(before.is_personal_household_of(a, user));
        assert(before.is_personal_household_of(b, user));
    }
}

/// The owner of a shared household adds any registered user who is not a member yet, by that
/// user's e-mail address: the user found under the address becomes a plain member, created
/// at `now`, is then found as such, and nothing else in the store changes.
pub proof fn lemma_owner_adds_registered_user(
    store: HouseholdStore,
    users: Seq<User>,
    command: AddHouseholdMemberCommand,
    now: i64,
)
    requires
        forall|i: int| 0 <= i < users.len() ==> (#[trigger] users[i]).email.is_valid(),
        store.households.contains_key(command.household_id),
        store.households[command.household_id].kind == HouseholdKind::Shared,
        store.owned_by(command.household_id, command.requester_id),
        exists|i: int|
            0 <= i < users.len() && #[trigger] users[i].email@ == command.member_email@,
        user_with_email(users, command.member_email@) matches Some(user)
            && !store.members.contains_key((command.household_id, user.id)),
    ensures
        user_with_email(users, command.member_email@) matches Some(user) && {
            let member = HouseholdMember {
                household_id: command.household_id,
                user_id: user.id,
                role: HouseholdRole::Member,
                created_at: now,
            };
            &&& user.email@ == command.member_email@
            &&& add_member_outcome(store, users, command, now) == Ok::<
                HouseholdMember,
                AddHouseholdMemberError,
            >(member)
            &&& store.add_member(member) matches Ok(next) && {
                &&& next.find_member(command.household_id, user.id) == Some(member)
                &&& next.households == store.households
                &&& next.members == store.members.insert((command.household_id, user.id), member)
            }
        },
{
    lemma_user_with_email(users, command.member_email@);
    let i = choose|i: int| 0 <= i < users.len() && #[trigger] users[i].email@ == command.member_email@;
    assert(users[i].email.is_valid());
}

/// Only the owner of a shared household adds members: whenever adding succeeds, the
/// household exists, is shared, and the requester is its owner; and a requester who is not
/// the owner of an existing shared household is refused with `Forbidden`, once the address
/// is an e-mail address, whoever the address belongs to.
pub proof fn lemma_only_owner_adds_members(
    store: HouseholdStore,
    users: Seq<User>,
    command: AddHouseholdMemberCommand,
    now: i64,
)
    ensures
        add_member_outcome(store, users, command, now) is Ok ==> {
            &&& store.households.contains_key(command.household_id)
            &&& store.households[command.household_id].kind == HouseholdKind::Shared
            &&& store.members.contains_key((command.household_id, command.requester_id))
            &&& store.members[(command.household_id, command.requester_id)].role
                == HouseholdRole::Owner
        },
        is_email_text(command.member_email@) && store.households.contains_key(
            command.household_id,
        ) && store.households[command.household_id].kind == HouseholdKind::Shared && !(
        store.members.contains_key((command.household_id, command.requester_id))
            && store.members[(command.household_id, command.requester_id)].role
            == HouseholdRole::Owner) ==> add_member_outcome(store, users, command, now) == Err::<
            HouseholdMember,
            AddHouseholdMemberError,
        >(AddHouseholdMemberError::Forbidden),
{
}

/// A plain member removes only themselves; the owner removes anyone but the owner. Whenever
/// removing succeeds, the requester removed themselves or owns the household, and the
/// removed user was a member other than the owner. A member of an existing household who
/// asks to remove someone else without owning it is refused with `Forbidden`, whether or
/// not that someone is a member.
pub proof fn lemma_member_removes_only_themselves(
    store: HouseholdStore,
    command: RemoveHouseholdMemberCommand,
)
    ensures
        remove_member_outcome(store, command) is Ok ==> {
            let requester = (command.household_id, command.requester_id);
            let target = (command.household_id, command.member_id);
            &&& store.households.contains_key(command.household_id)
            &&& store.members.contains_key(requester)
            &&& (command.requester_id == command.member_id || store.members[requester].role
                == HouseholdRole::Owner)
            &&& store.members.contains_key(target)
            &&& store.members[target].role != HouseholdRole::Owner
        },
        store.households.contains_key(command.household_id) && store.members.contains_key(
            (command.household_id, command.requester_id),
        ) && command.requester_id != command.member_id && store.members[(
        command.household_id,
        command.requester_id,
        )].role != HouseholdRole::Owner ==> remove_member_outcome(store, command) == Err::<
            (),
            RemoveHouseholdMemberError,
        >(RemoveHouseholdMemberError::HouseholdAccess(HouseholdAccessError::Forbidden)),
        store.households.contains_key(command.household_id) && store.members.contains_key(
            (command.household_id, command.requester_id),
        ) && store.members.contains_key((command.household_id, command.member_id))
            && store.members[(command.household_id, command.member_id)].role
            != HouseholdRole::Owner && (command.requester_id == command.member_id || store.members[(
        command.household_id,
        command.requester_id,
        )].role == HouseholdRole::Owner) ==> remove_member_outcome(store, command) == Ok::<
            (),
            RemoveHouseholdMemberError,
        >(()),
{
}

/// Any member renames a personal household; only the owner renames a shared one. Whenever
/// renaming may go ahead, the name is not blank, the household exists, the requester is a
/// member, and the household is personal or the requester owns it. A plain member of a
/// shared household is refused with `Forbidden`, and a member of a personal household, or
/// the owner of a shared one, may rename it to any name that is not blank.
pub proof fn lemma_only_owner_renames_shared_household(
    store: HouseholdStore,
    command: RenameHouseholdCommand,
)
    ensures
        rename_outcome(store, command) is Ok ==> {
            let requester = (command.household_id, command.requester_id);
            &&& !is_blank_text(command.name@)
            &&& store.households.contains_key(command.household_id)
            &&& store.members.contains_key(requester)
            &&& (store.households[command.household_id].kind == HouseholdKind::Personal
                || store.members[requester].role == HouseholdRole::Owner)
        },
        !is_blank_text(command.name@) && store.households.contains_key(command.household_id)
            && store.households[command.household_id].kind == HouseholdKind::Shared
            && store.members.contains_key((command.household_id, command.requester_id))
            && store.members[(command.household_id, command.requester_id)].role
            != HouseholdRole::Owner ==> rename_outcome(store, command) == Err::<
            (),
            RenameHouseholdError,
        >(RenameHouseholdError::Forbidden),
        !is_blank_text(command.name@) && store.households.contains_key(command.household_id)
            && store.members.contains_key((command.household_id, command.requester_id)) && (
        store.households[command.household_id].kind == HouseholdKind::Personal
            || store.members[(command.household_id, command.requester_id)].role
            == HouseholdRole::Owner) ==> rename_outcome(store, command) == Ok::<
            (),
            RenameHouseholdError,
        >(()),
{
}

/// Every member, whatever their role, gets the household they belong to; a user who is not
/// a member is refused with `Forbidden`, and a household that does not exist is reported
/// as not found.
pub proof fn lemma_any_member_gets_household(store: HouseholdStore, command: GetHouseholdCommand)
    ensures
        store.households.contains_key(command.household_id) && store.members.contains_key(
            (command.household_id, command.requester_id),
        ) ==> get_household_outcome(store, command) == Ok::<Household, GetHouseholdError>(
            store.households[command.household_id],
        ),
        store.households.contains_key(command.household_id) && !store.members.contains_key(
            (command.household_id, command.requester_id),
        ) ==> get_household_outcome(store, command) == Err::<Household, GetHouseholdError>(
            GetHouseholdError::HouseholdAccess(HouseholdAccessError::Forbidden),
        ),
        !store.households.contains_key(command.household_id) ==> get_household_outcome(
            store,
            command,
        ) == Err::<Household, GetHouseholdError>(
            GetHouseholdError::HouseholdAccess(HouseholdAccessError::HouseholdNotFound),
        ),
{
}

/// A member who is not the owner may leave a household, its owner may not; a user who is not
/// a member is refused with `Forbidden`, and a household that does not exist is reported as
/// not found.
pub proof fn lemma_member_leaves_owner_stays(store: HouseholdStore, command: LeaveHouseholdCommand)
    ensures
        ({
            let requester = (command.household_id, command.requester_id);
            &&& !store.households.contains_key(command.household_id) ==> leave_outcome(
                store,
                command,
            ) == Err::<(), LeaveHouseholdError>(
                LeaveHouseholdError::HouseholdAccess(HouseholdAccessError::HouseholdNotFound),
            )
            &&& store.households.contains_key(command.household_id)
                && !store.members.contains_key(requester) ==> leave_outcome(store, command)
                == Err::<(), LeaveHouseholdError>(
                LeaveHouseholdError::HouseholdAccess(HouseholdAccessError::Forbidden),
            )
            &&& store.households.contains_key(command.household_id) && store.members.contains_key(
                requester,
            ) && store.members[requester].role == HouseholdRole::Owner ==> leave_outcome(
                store,
                command,
            ) == Err::<(), LeaveHouseholdError>(LeaveHouseholdError::OwnerCannotLeave)
            &&& store.households.contains_key(command.household_id) && store.members.contains_key(
                requester,
            ) && store.members[requester].role != HouseholdRole::Owner ==> leave_outcome(
                store,
                command,
            ) == Ok::<(), LeaveHouseholdError>(())
        }),
{
}

/// Why adding a member is refused, in the order the checks run: text that is not an e-mail
/// address, then a household that does not exist, then a personal household; past the
/// owner check, an address nobody is registered under, then a user who is already a member.
pub proof fn lemma_add_member_refusals(
    store: HouseholdStore,
    users: Seq<User>,
    command: AddHouseholdMemberCommand,
    now: i64,
)
    ensures
        ({
            let outcome = add_member_outcome(store, users, command, now);
            let id = command.household_id;
            let requester = (id, command.requester_id);
            let checked = is_email_text(command.member_email@) && store.households.contains_key(id)
                && store.households[id].kind == HouseholdKind::Shared
                && store.members.contains_key(requester) && store.members[requester].role
                == HouseholdRole::Owner;
            &&& !is_email_text(command.member_email@) ==> outcome == Err::<
                HouseholdMember,
                AddHouseholdMemberError,
            >(AddHouseholdMemberError::InvalidEmail)
            &&& is_email_text(command.member_email@) && !store.households.contains_key(id)
                ==> outcome == Err::<HouseholdMember, AddHouseholdMemberError>(
                AddHouseholdMemberError::HouseholdNotFound,
            )
            &&& is_email_text(command.member_email@) && store.households.contains_key(id)
                && store.households[id].kind == HouseholdKind::Personal ==> outcome == Err::<
                HouseholdMember,
                AddHouseholdMemberError,
            >(AddHouseholdMemberError::PersonalHousehold)
            &&& checked && (forall|i: int|
                0 <= i < users.len() ==> #[trigger] users[i].email@ != command.member_email@)
                ==> outcome == Err::<HouseholdMember, AddHouseholdMemberError>(
                AddHouseholdMemberError::UserNotFound,
            )
            &&& checked && (user_with_email(users, command.member_email@) matches Some(u)
                && store.members.contains_key((id, u.id))) ==> outcome == Err::<
                HouseholdMember,
                AddHouseholdMemberError,
            >(AddHouseholdMemberError::MemberAlreadyExists)
        }),
{
    lemma_user_with_email(users, command.member_email@);
}

/// Why removing a member is refused: a household that does not exist, a requester who is
/// not a member, and, for a requester allowed to remove the user, a user who is not a
/// member, or the owner.
pub proof fn lemma_remove_member_refusals(store: HouseholdStore, command: RemoveHouseholdMemberCommand)
    ensures
        ({
            let outcome = remove_member_outcome(store, command);
            let id = command.household_id;
            let requester = (id, command.requester_id);
            let target = (id, command.member_id);
            let allowed = store.households.contains_key(id) && store.members.contains_key(
                requester,
            ) && (command.requester_id == command.member_id || store.members[requester].role
                == HouseholdRole::Owner);
            &&& !store.households.contains_key(id) ==> outcome == Err::<
                (),
                RemoveHouseholdMemberError,
            >(RemoveHouseholdMemberError::HouseholdAccess(HouseholdAccessError::HouseholdNotFound))
            &&& store.households.contains_key(id) && !store.members.contains_key(requester)
                ==> outcome == Err::<(), RemoveHouseholdMemberError>(
                RemoveHouseholdMemberError::HouseholdAccess(HouseholdAccessError::Forbidden),
            )
            &&& allowed && !store.members.contains_key(target) ==> outcome == Err::<
                (),
                RemoveHouseholdMemberError,
            >(RemoveHouseholdMemberError::MemberNotFound)
            &&& allowed && store.members.contains_key(target) && store.members[target].role
                == HouseholdRole::Owner ==> outcome == Err::<(), RemoveHouseholdMemberError>(
                RemoveHouseholdMemberError::OwnerCannotBeRemoved,
            )
        }),
{
}

/// Why renaming is refused before the owner check: a blank name, then a household that does
/// not exist, then a requester who is not a member.
pub proof fn lemma_rename_refusals(store: HouseholdStore, command: RenameHouseholdCommand)
    ensures
        is_blank_text(command.name@) ==> rename_outcome(store, command) == Err::<
            (),
            RenameHouseholdError,
        >(RenameHouseholdError::InvalidName),
        !is_blank_text(command.name@) && !store.households.contains_key(command.household_id)
            ==> rename_outcome(store, command) == Err::<(), RenameHouseholdError>(
            RenameHouseholdError::NotFound,
        ),
        !is_blank_text(command.name@) && store.households.contains_key(command.household_id)
            && !store.members.contains_key((command.household_id, command.requester_id))
            ==> rename_outcome(store, command) == Err::<(), RenameHouseholdError>(
            RenameHouseholdError::Forbidden,
        ),
{
}

} // verus!
