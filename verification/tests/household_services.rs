use std::cell::RefCell;

use backend::accounts::{DisplayName, Email, EmailError, User, UserId};
use backend::households::access_policy::DefaultHouseholdAccessPolicy;
use backend::households::application::add_member::{
    AddHouseholdMemberCommand, AddHouseholdMemberError, AddHouseholdMemberService,
};
use backend::households::application::delete_household::{
    DeleteHouseholdCommand, DeleteHouseholdError,
};
use backend::households::application::get_household::{
    GetHouseholdCommand, GetHouseholdError, GetHouseholdService,
};
use backend::households::application::subscribe_household_events::{
    SubscribeHouseholdEventsCommand, SubscribeHouseholdEventsError,
};
use backend::households::application::leave_household::{
    LeaveHouseholdCommand, LeaveHouseholdError, LeaveHouseholdService,
};
use backend::households::application::list_members::{
    HouseholdMemberInfo, ListHouseholdMembersCommand, ListHouseholdMembersError,
};
use backend::households::application::pending_events::{publish_pending, PendingHouseholdEvents};
use backend::households::application::remove_member::{
    RemoveHouseholdMemberCommand, RemoveHouseholdMemberError, RemoveHouseholdMemberService,
};
use backend::households::application::update_name::{
    RenameHouseholdCommand, RenameHouseholdError, RenameHouseholdService,
};
use backend::households::domain::{
    Household, HouseholdEvent, HouseholdId, HouseholdKind, HouseholdMember, HouseholdName,
    HouseholdRole,
};
use backend::households::in_memory_repository::InMemoryHouseholdRepository;
use backend::households::ports::{
    HouseholdAccessError, HouseholdEventPublisher, HouseholdEventPublisherError,
    HouseholdEventSubscriberError, HouseholdRepositoryError,
};
use backend::shared::{InternalError, PersistenceError};

const NOW: i64 = 1_700_000_000_000_000;

#[derive(Default)]
struct RecordingPublisher {
    published: RefCell<Vec<(HouseholdId, HouseholdEvent)>>,
}

impl HouseholdEventPublisher for RecordingPublisher {
    fn publish(
        &self,
        household_id: HouseholdId,
        event: HouseholdEvent,
    ) -> Result<(), HouseholdEventPublisherError> {
        self.published.borrow_mut().push((household_id, event));
        Ok(())
    }
}

/// The stores the use cases talk to, with switches that make them fail as the original
/// test doubles did.
struct World {
    households: InMemoryHouseholdRepository,
    users: Vec<User>,
    publisher: RecordingPublisher,
    households_fail: bool,
    users_fail: bool,
    duplicate_on_add: bool,
    missing_on_remove: bool,
    missing_on_update: bool,
    next_id: u128,
}

fn failure() -> HouseholdRepositoryError {
    HouseholdRepositoryError::Persistence(PersistenceError::Failed)
}

impl World {
    fn new() -> Self {
        World {
            households: InMemoryHouseholdRepository::new(),
            users: Vec::new(),
            publisher: RecordingPublisher::default(),
            households_fail: false,
            users_fail: false,
            duplicate_on_add: false,
            missing_on_remove: false,
            missing_on_update: false,
            next_id: 100,
        }
    }

    fn fresh(&mut self) -> u128 {
        self.next_id += 1;
        self.next_id
    }

    fn insert_user(&mut self, email: &str) -> User {
        let id = UserId::from_u128(self.fresh());
        let user = User {
            id,
            email: Email::parse(email).expect("valid email"),
            display_name: DisplayName::new(format!("User {}", email)),
        };
        self.users.push(user.clone());
        user
    }

    fn create_household(&mut self, owner: UserId, kind: HouseholdKind) -> (Household, HouseholdMember) {
        let id = HouseholdId::from_u128(self.fresh());
        let personal_owner_id = match kind {
            HouseholdKind::Personal => Some(owner),
            HouseholdKind::Shared => None,
        };
        let household = Household::new(
            id,
            HouseholdName::parse("Test household").expect("valid name"),
            kind,
            personal_owner_id,
            NOW,
            NOW,
        )
        .expect("valid household");
        let membership = HouseholdMember::new(id, owner, HouseholdRole::Owner, NOW);
        self.households
            .create_with_owner(&household, &membership)
            .expect("Household creation should succeed");
        (household, membership)
    }

    fn insert_member(&mut self, household_id: HouseholdId, user_id: UserId) {
        self.households
            .add_member(HouseholdMember::new(household_id, user_id, HouseholdRole::Member, NOW))
            .expect("Adding member should succeed");
    }

    fn find_by_id(&self, id: HouseholdId) -> Result<Option<Household>, HouseholdRepositoryError> {
        if self.households_fail {
            Err(failure())
        } else {
            Ok(self.households.find_by_id(id))
        }
    }

    fn find_member(
        &self,
        household_id: HouseholdId,
        user_id: UserId,
    ) -> Result<Option<HouseholdMember>, HouseholdRepositoryError> {
        if self.households_fail {
            Err(failure())
        } else {
            Ok(self.households.find_member(household_id, user_id))
        }
    }

    fn find_members(&self, household_id: HouseholdId) -> Result<Vec<HouseholdMember>, HouseholdRepositoryError> {
        if self.households_fail {
            Err(failure())
        } else {
            Ok(self.households.find_members(household_id))
        }
    }

    fn require_member(&self, household_id: HouseholdId, user_id: UserId) -> Result<HouseholdMember, HouseholdAccessError> {
        let policy = DefaultHouseholdAccessPolicy::new();
        let check = policy.begin_member_check(household_id, user_id);
        let next = check.on_household(self.find_by_id(household_id))?;
        next.on_membership(self.find_member(household_id, user_id))
    }

    fn user_by_email(&self, email: &str) -> Result<Option<User>, ()> {
        if self.users_fail {
            return Err(());
        }
        Ok(self.users.iter().find(|u| u.email.as_str() == email).cloned())
    }

    fn users_by_ids(&self, ids: &[UserId]) -> Result<Vec<User>, ()> {
        if self.users_fail {
            return Err(());
        }
        Ok(self.users.iter().filter(|u| ids.contains(&u.id)).cloned().collect())
    }

    fn publish(&self, pending: PendingHouseholdEvents) {
        publish_pending(&self.publisher, pending).expect("Publishing should succeed");
    }

    fn add_member(&mut self, command: AddHouseholdMemberCommand) -> Result<(), AddHouseholdMemberError> {
        let service = AddHouseholdMemberService::new((), (), ());
        let stage = service.begin(command)?;
        let (household_id, requester_id) = (stage.household_id, stage.requester_id);
        let stage = stage.on_household(self.find_by_id(household_id))?;
        let stage = stage.on_requester(self.find_member(household_id, requester_id))?;
        let email = stage.email.as_str().to_string();
        let stage = stage.on_user(self.user_by_email(&email))?;
        let user_id = stage.user_id;
        let stage = stage.on_existing_member(self.find_member(household_id, user_id))?;
        let reply = if self.duplicate_on_add {
            Err(HouseholdRepositoryError::MemberAlreadyExists)
        } else {
            self.households.add_member(stage.member)
        };
        let pending = stage.on_added(reply)?;
        self.publish(pending);
        Ok(())
    }

    fn get_household(&self, command: GetHouseholdCommand) -> Result<Household, GetHouseholdError> {
        let access = self.require_member(command.household_id, command.requester_id);
        let stage = command.on_access(access)?;
        let household_id = stage.household_id;
        stage.on_household(self.find_by_id(household_id))
    }

    fn list_members(&self, command: ListHouseholdMembersCommand) -> Result<Vec<HouseholdMemberInfo>, ListHouseholdMembersError> {
        let access = self.require_member(command.household_id, command.requester_id);
        let stage = command.on_access(access)?;
        let household_id = stage.household_id;
        let stage = stage.on_members(self.find_members(household_id))?;
        let users = self.users_by_ids(&stage.user_ids);
        stage.on_users(users)
    }

    fn remove_member(&mut self, command: RemoveHouseholdMemberCommand) -> Result<(), RemoveHouseholdMemberError> {
        let access = self.require_member(command.household_id, command.requester_id);
        let stage = command.on_access(access)?;
        let (household_id, member_id) = (stage.household_id, stage.member_id);
        let stage = stage.on_target(self.find_member(household_id, member_id))?;
        let reply = if self.missing_on_remove {
            Err(HouseholdRepositoryError::MemberNotFound)
        } else {
            self.households.remove_member(stage.household_id, stage.member_id)
        };
        stage.on_removed(reply)
    }

    fn leave(&mut self, command: LeaveHouseholdCommand) -> Result<(), LeaveHouseholdError> {
        let access = self.require_member(command.household_id, command.requester_id);
        let stage = command.on_access(access)?;
        let reply = self.households.remove_member(stage.household_id, stage.requester_id);
        let pending = stage.on_removed(reply)?;
        self.publish(pending);
        Ok(())
    }

    fn rename(&mut self, command: RenameHouseholdCommand) -> Result<(), RenameHouseholdError> {
        let service = RenameHouseholdService::new((), ());
        let stage = service.begin(command)?;
        let (household_id, requester_id) = (stage.household_id, stage.requester_id);
        let stage = stage.on_household(self.find_by_id(household_id))?;
        let stage = stage.on_requester(self.find_member(household_id, requester_id))?;
        let reply = if self.missing_on_update {
            Err(HouseholdRepositoryError::HouseholdNotFound)
        } else if self.households_fail {
            Err(failure())
        } else {
            self.households.update(&stage.household)
        };
        let pending = stage.on_updated(reply)?;
        self.publish(pending);
        Ok(())
    }
}

struct Fixture {
    world: World,
    owner: User,
    member: User,
    household: Household,
}

fn shared_fixture() -> Fixture {
    let mut world = World::new();
    let owner = world.insert_user("owner@email.com");
    let member = world.insert_user("member@email.com");
    let (household, _) = world.create_household(owner.id, HouseholdKind::Shared);
    Fixture { world, owner, member, household }
}

fn add_command(f: &Fixture, email: &str) -> AddHouseholdMemberCommand {
    AddHouseholdMemberCommand {
        requester_id: f.owner.id,
        household_id: f.household.id(),
        member_email: email.to_string(),
    }
}

#[test]
fn owner_can_add_member_to_shared_household() {
    let mut f = shared_fixture();
    let command = add_command(&f, "member@email.com");

    f.world.add_member(command).expect("Adding member should succeed");

    let stored = f
        .world
        .households
        .find_member(f.household.id(), f.member.id)
        .expect("Member should exist");
    assert_eq!(stored.user_id(), f.member.id);
    assert_eq!(stored.role(), HouseholdRole::Member);
    assert_eq!(
        f.world.publisher.published.borrow().clone(),
        vec![(f.household.id(), HouseholdEvent::HouseholdChanged)]
    );
}

#[test]
fn invalid_email_returns_invalid_email() {
    let mut f = shared_fixture();
    let command = add_command(&f, "member_email.com");

    assert_eq!(f.world.add_member(command), Err(AddHouseholdMemberError::InvalidEmail));
}

#[test]
fn add_member_unknown_household_returns_household_not_found() {
    let mut f = shared_fixture();
    let mut command = add_command(&f, "member@email.com");
    command.household_id = HouseholdId::from_u128(1);

    assert_eq!(f.world.add_member(command), Err(AddHouseholdMemberError::HouseholdNotFound));
}

#[test]
fn personal_household_returns_personal_household() {
    let mut world = World::new();
    let owner = world.insert_user("owner@email.com");
    world.insert_user("member@email.com");
    let (household, _) = world.create_household(owner.id, HouseholdKind::Personal);

    let result = world.add_member(AddHouseholdMemberCommand {
        requester_id: owner.id,
        household_id: household.id(),
        member_email: "member@email.com".to_string(),
    });

    assert_eq!(result, Err(AddHouseholdMemberError::PersonalHousehold));
}

#[test]
fn requester_who_is_not_a_member_returns_forbidden() {
    let mut f = shared_fixture();
    let outsider = f.world.insert_user("outsider@email.com");
    let mut command = add_command(&f, "member@email.com");
    command.requester_id = outsider.id;

    assert_eq!(f.world.add_member(command), Err(AddHouseholdMemberError::Forbidden));
}

#[test]
fn requester_with_role_member_returns_forbidden() {
    let mut f = shared_fixture();
    let other = f.world.insert_user("other@email.com");
    f.world.insert_member(f.household.id(), f.member.id);
    let command = AddHouseholdMemberCommand {
        requester_id: f.member.id,
        household_id: f.household.id(),
        member_email: other.email.as_str().to_string(),
    };

    assert_eq!(f.world.add_member(command), Err(AddHouseholdMemberError::Forbidden));
}

#[test]
fn unknown_target_user_returns_user_not_found() {
    let mut f = shared_fixture();
    let command = add_command(&f, "nobody@email.com");

    assert_eq!(f.world.add_member(command), Err(AddHouseholdMemberError::UserNotFound));
}

#[test]
fn existing_member_returns_member_already_exists() {
    let mut f = shared_fixture();
    f.world.insert_member(f.household.id(), f.member.id);
    let command = add_command(&f, "member@email.com");

    assert_eq!(
        f.world.add_member(command),
        Err(AddHouseholdMemberError::MemberAlreadyExists)
    );
}

#[test]
fn add_member_household_repository_failure_returns_internal() {
    let mut f = shared_fixture();
    f.world.households_fail = true;
    let command = add_command(&f, "member@email.com");

    assert_eq!(
        f.world.add_member(command),
        Err(AddHouseholdMemberError::Internal(InternalError::Failed))
    );
}

#[test]
fn user_repository_failure_returns_internal() {
    let mut f = shared_fixture();
    f.world.users_fail = true;
    let command = add_command(&f, "member@email.com");

    assert_eq!(
        f.world.add_member(command),
        Err(AddHouseholdMemberError::Internal(InternalError::Failed))
    );
}

#[test]
fn member_already_exists_from_repository_is_preserved() {
    let mut f = shared_fixture();
    f.world.duplicate_on_add = true;
    let command = add_command(&f, "member@email.com");

    assert_eq!(
        f.world.add_member(command),
        Err(AddHouseholdMemberError::MemberAlreadyExists)
    );
}

#[test]
fn member_can_retrieve_household() {
    let f = shared_fixture();

    let result = f.world.get_household(GetHouseholdCommand {
        household_id: f.household.id(),
        requester_id: f.owner.id,
    });

    assert_eq!(result, Ok(f.household.clone()));
}

#[test]
fn get_household_unknown_household_returns_not_found() {
    let world = World::new();

    let result = world.get_household(GetHouseholdCommand {
        household_id: HouseholdId::from_u128(1),
        requester_id: UserId::from_u128(2),
    });

    assert_eq!(
        result,
        Err(GetHouseholdError::HouseholdAccess(HouseholdAccessError::HouseholdNotFound))
    );
}

#[test]
fn get_household_non_member_returns_forbidden() {
    let f = shared_fixture();

    let result = f.world.get_household(GetHouseholdCommand {
        household_id: f.household.id(),
        requester_id: f.member.id,
    });

    assert_eq!(
        result,
        Err(GetHouseholdError::HouseholdAccess(HouseholdAccessError::Forbidden))
    );
}

#[test]
fn repository_failure_returns_internal_error() {
    let mut world = World::new();
    world.households_fail = true;

    let result = world.get_household(GetHouseholdCommand {
        household_id: HouseholdId::from_u128(1),
        requester_id: UserId::from_u128(2),
    });

    assert_eq!(
        result,
        Err(GetHouseholdError::HouseholdAccess(HouseholdAccessError::Internal(
            InternalError::Failed
        )))
    );
}

#[test]
fn member_can_list_household_member() {
    let mut f = shared_fixture();
    f.world.insert_member(f.household.id(), f.member.id);

    let result = f
        .world
        .list_members(ListHouseholdMembersCommand {
            household_id: f.household.id(),
            requester_id: f.member.id,
        })
        .expect("Listing should succeed");

    assert_eq!(result.len(), 2);
}

#[test]
fn returned_members_include_correct_display_names_and_roles() {
    let mut f = shared_fixture();
    f.world.insert_member(f.household.id(), f.member.id);

    let result = f
        .world
        .list_members(ListHouseholdMembersCommand {
            household_id: f.household.id(),
            requester_id: f.owner.id,
        })
        .expect("Listing should succeed");

    assert_eq!(result.len(), 2);
    assert!(result.iter().any(|m| m.user_id == f.owner.id
        && m.display_name.as_str() == f.owner.display_name.as_str()
        && m.role == HouseholdRole::Owner));
    assert!(result.iter().any(|m| m.user_id == f.member.id
        && m.display_name.as_str() == f.member.display_name.as_str()
        && m.role == HouseholdRole::Member));
}

#[test]
fn list_members_unknown_household_returns_not_found() {
    let world = World::new();

    let result = world.list_members(ListHouseholdMembersCommand {
        household_id: HouseholdId::from_u128(1),
        requester_id: UserId::from_u128(2),
    });

    assert_eq!(
        result,
        Err(ListHouseholdMembersError::HouseholdAccess(HouseholdAccessError::HouseholdNotFound))
    );
}

#[test]
fn list_members_non_member_returns_forbidden() {
    let f = shared_fixture();

    let result = f.world.list_members(ListHouseholdMembersCommand {
        household_id: f.household.id(),
        requester_id: f.member.id,
    });

    assert_eq!(
        result,
        Err(ListHouseholdMembersError::HouseholdAccess(HouseholdAccessError::Forbidden))
    );
}

#[test]
fn list_members_household_repository_failure_returns_internal() {
    let mut world = World::new();
    world.households_fail = true;

    let result = world.list_members(ListHouseholdMembersCommand {
        household_id: HouseholdId::from_u128(1),
        requester_id: UserId::from_u128(2),
    });

    assert_eq!(
        result,
        Err(ListHouseholdMembersError::HouseholdAccess(HouseholdAccessError::Internal(
            InternalError::Failed
        )))
    );
}

#[test]
fn user_repository_failure_returns_failure() {
    let mut f = shared_fixture();
    f.world.users_fail = true;

    let result = f.world.list_members(ListHouseholdMembersCommand {
        household_id: f.household.id(),
        requester_id: f.owner.id,
    });

    assert_eq!(result, Err(ListHouseholdMembersError::Internal(InternalError::Failed)));
}

#[test]
fn missing_user_for_an_existing_membership_returns_internal() {
    let mut f = shared_fixture();
    f.world.insert_member(f.household.id(), UserId::from_u128(1));

    let result = f.world.list_members(ListHouseholdMembersCommand {
        household_id: f.household.id(),
        requester_id: f.owner.id,
    });

    assert_eq!(result, Err(ListHouseholdMembersError::Internal(InternalError::Failed)));
}

fn remove_command(f: &Fixture, requester: UserId, member: UserId) -> RemoveHouseholdMemberCommand {
    RemoveHouseholdMemberCommand {
        requester_id: requester,
        household_id: f.household.id(),
        member_id: member,
    }
}

#[test]
fn owner_can_remove_member() {
    let mut f = shared_fixture();
    f.world.insert_member(f.household.id(), f.member.id);
    let command = remove_command(&f, f.owner.id, f.member.id);

    assert!(f.world.remove_member(command).is_ok());
    assert!(f.world.households.find_member(f.household.id(), f.member.id).is_none());
}

#[test]
fn member_can_remove_themselves() {
    let mut f = shared_fixture();
    f.world.insert_member(f.household.id(), f.member.id);
    let command = remove_command(&f, f.member.id, f.member.id);

    assert!(f.world.remove_member(command).is_ok());
    assert!(f.world.households.find_member(f.household.id(), f.member.id).is_none());
}

#[test]
fn member_cannot_remove_another_member() {
    let mut f = shared_fixture();
    let other = f.world.insert_user("other@email.com");
    f.world.insert_member(f.household.id(), f.member.id);
    f.world.insert_member(f.household.id(), other.id);
    let command = remove_command(&f, f.member.id, other.id);

    assert_eq!(
        f.world.remove_member(command),
        Err(RemoveHouseholdMemberError::HouseholdAccess(HouseholdAccessError::Forbidden))
    );
    assert!(f.world.households.find_member(f.household.id(), other.id).is_some());
}

#[test]
fn non_member_requester_returns_forbidden() {
    let mut f = shared_fixture();
    let outsider = f.world.insert_user("outsider@email.com");
    f.world.insert_member(f.household.id(), f.member.id);
    let command = remove_command(&f, outsider.id, f.member.id);

    assert_eq!(
        f.world.remove_member(command),
        Err(RemoveHouseholdMemberError::HouseholdAccess(HouseholdAccessError::Forbidden))
    );
    assert!(f.world.households.find_member(f.household.id(), f.member.id).is_some());
}

#[test]
fn remove_member_unknown_household_returns_household_not_found() {
    let mut world = World::new();

    let result = world.remove_member(RemoveHouseholdMemberCommand {
        requester_id: UserId::from_u128(1),
        household_id: HouseholdId::from_u128(2),
        member_id: UserId::from_u128(3),
    });

    assert_eq!(
        result,
        Err(RemoveHouseholdMemberError::HouseholdAccess(HouseholdAccessError::HouseholdNotFound))
    );
}

#[test]
fn unknown_target_member_returns_member_not_found() {
    let mut f = shared_fixture();
    let command = remove_command(&f, f.owner.id, f.member.id);

    assert_eq!(f.world.remove_member(command), Err(RemoveHouseholdMemberError::MemberNotFound));
}

#[test]
fn owner_cannot_remove_themselves() {
    let mut f = shared_fixture();
    let command = remove_command(&f, f.owner.id, f.owner.id);

    assert_eq!(
        f.world.remove_member(command),
        Err(RemoveHouseholdMemberError::OwnerCannotBeRemoved)
    );
    assert!(f.world.households.find_member(f.household.id(), f.owner.id).is_some());
}

#[test]
fn remove_member_household_repository_failure_returns_internal() {
    let mut f = shared_fixture();
    f.world.households_fail = true;
    let command = remove_command(&f, f.owner.id, f.member.id);

    assert_eq!(
        f.world.remove_member(command),
        Err(RemoveHouseholdMemberError::HouseholdAccess(HouseholdAccessError::Internal(
            InternalError::Failed
        )))
    );
}

#[test]
fn member_not_found_from_repository_is_preserved() {
    let mut f = shared_fixture();
    f.world.insert_member(f.household.id(), f.member.id);
    f.world.missing_on_remove = true;
    let command = remove_command(&f, f.owner.id, f.member.id);

    assert_eq!(f.world.remove_member(command), Err(RemoveHouseholdMemberError::MemberNotFound));
}

#[test]
fn member_can_leave_household() {
    let mut f = shared_fixture();
    f.world.insert_member(f.household.id(), f.member.id);

    let result = f.world.leave(LeaveHouseholdCommand {
        requester_id: f.member.id,
        household_id: f.household.id(),
    });

    assert_eq!(result, Ok(()));
    assert!(f.world.households.find_member(f.household.id(), f.member.id).is_none());
    assert_eq!(
        f.world.publisher.published.borrow().clone(),
        vec![(f.household.id(), HouseholdEvent::HouseholdChanged)]
    );
}

#[test]
fn owner_cannot_leave_household() {
    let mut f = shared_fixture();

    let result = f.world.leave(LeaveHouseholdCommand {
        requester_id: f.owner.id,
        household_id: f.household.id(),
    });

    assert_eq!(result, Err(LeaveHouseholdError::OwnerCannotLeave));
}

fn rename_command(f: &Fixture, requester: UserId, name: &str) -> RenameHouseholdCommand {
    RenameHouseholdCommand {
        requester_id: requester,
        household_id: f.household.id(),
        name: name.to_string(),
    }
}

#[test]
fn owner_can_rename_shared_household() {
    let mut f = shared_fixture();
    let command = rename_command(&f, f.owner.id, "New name");

    f.world.rename(command).expect("Renaming should succeed");

    let stored = f.world.households.find_by_id(f.household.id()).expect("Household should exist");
    assert_eq!(stored.name().as_str(), "New name");
}

#[test]
fn owner_can_rename_a_personal_household() {
    let mut world = World::new();
    let owner = world.insert_user("owner@email.com");
    let (household, _) = world.create_household(owner.id, HouseholdKind::Personal);

    world
        .rename(RenameHouseholdCommand {
            requester_id: owner.id,
            household_id: household.id(),
            name: "Mine".to_string(),
        })
        .expect("Renaming should succeed");

    let stored = world.households.find_by_id(household.id()).expect("Household should exist");
    assert_eq!(stored.name().as_str(), "Mine");
}

#[test]
fn invalid_name_returns_invalid_name() {
    let mut f = shared_fixture();
    let command = rename_command(&f, f.owner.id, "   ");

    assert_eq!(f.world.rename(command), Err(RenameHouseholdError::InvalidName));
}

#[test]
fn update_name_unknown_household_returns_not_found() {
    let mut f = shared_fixture();
    let mut command = rename_command(&f, f.owner.id, "New name");
    command.household_id = HouseholdId::from_u128(1);

    assert_eq!(f.world.rename(command), Err(RenameHouseholdError::NotFound));
}

#[test]
fn update_name_non_member_returns_forbidden() {
    let mut f = shared_fixture();
    let command = rename_command(&f, f.member.id, "New name");

    assert_eq!(f.world.rename(command), Err(RenameHouseholdError::Forbidden));
}

#[test]
fn shared_household_member_cannot_rename_household() {
    let mut f = shared_fixture();
    f.world.insert_member(f.household.id(), f.member.id);
    let command = rename_command(&f, f.member.id, "New name");

    assert_eq!(f.world.rename(command), Err(RenameHouseholdError::Forbidden));
}

#[test]
fn repository_failure_returns_internal() {
    let mut f = shared_fixture();
    f.world.households_fail = true;
    let command = rename_command(&f, f.owner.id, "New name");

    assert_eq!(
        f.world.rename(command),
        Err(RenameHouseholdError::Internal(InternalError::Failed))
    );
}

#[test]
fn household_not_found_is_preserved_as_not_found() {
    let mut f = shared_fixture();
    f.world.missing_on_update = true;
    let command = rename_command(&f, f.owner.id, "New name");

    assert_eq!(f.world.rename(command), Err(RenameHouseholdError::NotFound));
}

#[test]
fn pending_events_are_published_in_order() {
    let publisher = RecordingPublisher::default();
    let household_id = HouseholdId::from_u128(5);
    let pending = PendingHouseholdEvents {
        household_id,
        events: vec![
            HouseholdEvent::ShoppingListChanged,
            HouseholdEvent::InventoryItemsChanged,
        ],
    };

    assert_eq!(publish_pending(&publisher, pending), Ok(()));
    assert_eq!(
        publisher.published.borrow().clone(),
        vec![
            (household_id, HouseholdEvent::ShoppingListChanged),
            (household_id, HouseholdEvent::InventoryItemsChanged),
        ]
    );
}

struct FailingPublisher;

impl HouseholdEventPublisher for FailingPublisher {
    fn publish(&self, _: HouseholdId, _: HouseholdEvent) -> Result<(), HouseholdEventPublisherError> {
        Err(HouseholdEventPublisherError::Unavailable)
    }
}

#[test]
fn publisher_failure_is_internal() {
    let pending = PendingHouseholdEvents {
        household_id: HouseholdId::from_u128(5),
        events: vec![HouseholdEvent::HouseholdChanged],
    };

    assert_eq!(publish_pending(&FailingPublisher, pending), Err(InternalError::Failed));
}

#[test]
fn access_policy_grants_members_and_refuses_outsiders() {
    let mut f = shared_fixture();
    f.world.insert_member(f.household.id(), f.member.id);
    let outsider = f.world.insert_user("outsider@email.com");
    let policy = DefaultHouseholdAccessPolicy::new();
    let repository = &f.world.households;

    let member = policy
        .require_member(repository, f.household.id(), f.member.id)
        .expect("member passes");
    assert_eq!(member.role, HouseholdRole::Member);
    assert_eq!(
        policy.require_owner(repository, f.household.id(), f.member.id),
        Err(HouseholdAccessError::Forbidden)
    );
    assert!(policy.require_owner(repository, f.household.id(), f.owner.id).is_ok());
    assert_eq!(
        policy.require_member(repository, f.household.id(), outsider.id),
        Err(HouseholdAccessError::Forbidden)
    );
    assert_eq!(
        policy.require_member(repository, HouseholdId::from_u128(1), f.owner.id),
        Err(HouseholdAccessError::HouseholdNotFound)
    );
}

#[test]
fn add_member_use_case_runs_against_the_in_memory_store() {
    let mut f = shared_fixture();
    let service = AddHouseholdMemberService::new((), (), ());
    let command = add_command(&f, "member@email.com");

    let pending = service
        .execute_in_memory(&mut f.world.households, &f.world.users, command, NOW + 5)
        .expect("Adding member should succeed");

    assert_eq!(pending.household_id, f.household.id());
    assert_eq!(pending.events, vec![HouseholdEvent::HouseholdChanged]);
    assert_eq!(
        f.world.households.find_member(f.household.id(), f.member.id),
        Some(HouseholdMember::new(f.household.id(), f.member.id, HouseholdRole::Member, NOW + 5))
    );

    let again = add_command(&f, "member@email.com");
    assert_eq!(
        service.execute_in_memory(&mut f.world.households, &f.world.users, again, NOW + 6),
        Err(AddHouseholdMemberError::MemberAlreadyExists)
    );
}

#[test]
fn remove_member_use_case_never_removes_the_owner() {
    let mut f = shared_fixture();
    f.world.insert_member(f.household.id(), f.member.id);
    let service = RemoveHouseholdMemberService::new((), ());

    let owner_removal = remove_command(&f, f.owner.id, f.owner.id);
    assert_eq!(
        service.execute_in_memory(&mut f.world.households, owner_removal),
        Err(RemoveHouseholdMemberError::OwnerCannotBeRemoved)
    );

    let member_removal = remove_command(&f, f.owner.id, f.member.id);
    assert_eq!(service.execute_in_memory(&mut f.world.households, member_removal), Ok(()));
    assert!(f.world.households.find_member(f.household.id(), f.member.id).is_none());
    assert!(f.world.households.find_member(f.household.id(), f.owner.id).is_some());
}

#[test]
fn leave_use_case_keeps_the_owner() {
    let mut f = shared_fixture();
    f.world.insert_member(f.household.id(), f.member.id);
    let service = LeaveHouseholdService::new((), (), ());

    assert_eq!(
        service
            .execute_in_memory(
                &mut f.world.households,
                LeaveHouseholdCommand { requester_id: f.owner.id, household_id: f.household.id() },
            )
            .err(),
        Some(LeaveHouseholdError::OwnerCannotLeave)
    );
    let pending = service
        .execute_in_memory(
            &mut f.world.households,
            LeaveHouseholdCommand { requester_id: f.member.id, household_id: f.household.id() },
        )
        .expect("member leaves");
    assert_eq!(pending.events, vec![HouseholdEvent::HouseholdChanged]);
    assert!(f.world.households.find_member(f.household.id(), f.member.id).is_none());
}

#[test]
fn rename_use_case_changes_only_the_name_and_time() {
    let mut f = shared_fixture();
    let service = RenameHouseholdService::new((), ());

    let command = rename_command(&f, f.owner.id, "Flat 2");
    service
        .execute_in_memory(&mut f.world.households, command, NOW + 9)
        .expect("Renaming should succeed");

    let stored = f.world.households.find_by_id(f.household.id()).expect("Household should exist");
    assert_eq!(stored.name().as_str(), "Flat 2");
    assert_eq!(stored.updated_at, NOW + 9);
    assert_eq!(stored.id(), f.household.id());
    assert_eq!(stored.kind(), f.household.kind());
    assert_eq!(stored.created_at, f.household.created_at);
    let command = rename_command(&f, f.member.id, "X");
    assert_eq!(
        service.execute_in_memory(&mut f.world.households, command, NOW),
        Err(RenameHouseholdError::Forbidden)
    );
}

fn delete_command(f: &Fixture, requester: UserId) -> DeleteHouseholdCommand {
    DeleteHouseholdCommand {
        requester_id: requester,
        household_id: f.household.id(),
    }
}

#[test]
fn owner_can_delete_a_household_without_other_members() {
    let f = shared_fixture();
    let policy = DefaultHouseholdAccessPolicy::new();
    let access = policy.require_owner(&f.world.households, f.household.id(), f.owner.id);

    let stage = delete_command(&f, f.owner.id).on_owner_check(access).expect("owner");
    let stage = stage
        .on_members(Ok(f.world.households.find_members(f.household.id())))
        .expect("alone in the household");
    let pending = stage.on_deleted(Ok(())).expect("deleted");

    assert_eq!(pending.household_id, f.household.id());
    assert_eq!(pending.events, vec![HouseholdEvent::HouseholdChanged]);
}

#[test]
fn household_with_other_members_is_not_deleted() {
    let mut f = shared_fixture();
    f.world.insert_member(f.household.id(), f.member.id);
    let policy = DefaultHouseholdAccessPolicy::new();
    let access = policy.require_owner(&f.world.households, f.household.id(), f.owner.id);

    let stage = delete_command(&f, f.owner.id).on_owner_check(access).expect("owner");

    assert_eq!(
        stage.on_members(Ok(f.world.households.find_members(f.household.id()))).err(),
        Some(DeleteHouseholdError::HouseholdHasOtherMembers)
    );
}

#[test]
fn only_the_owner_may_delete_a_household() {
    let mut f = shared_fixture();
    f.world.insert_member(f.household.id(), f.member.id);
    let policy = DefaultHouseholdAccessPolicy::new();
    let access = policy.require_owner(&f.world.households, f.household.id(), f.member.id);

    assert_eq!(
        delete_command(&f, f.member.id).on_owner_check(access).err(),
        Some(DeleteHouseholdError::HouseholdAccess(HouseholdAccessError::Forbidden))
    );
}

#[test]
fn failed_deletion_is_internal() {
    let f = shared_fixture();
    let stage = delete_command(&f, f.owner.id)
        .on_owner_check(Ok::<(), HouseholdAccessError>(()))
        .expect("owner");
    let stage = stage.on_members(Ok(vec![])).expect("no members");

    assert_eq!(
        stage.on_deleted(Err(failure())).err(),
        Some(DeleteHouseholdError::Internal(InternalError::Failed))
    );
}

#[test]
fn member_subscribes_to_household_events() {
    let f = shared_fixture();
    let command = SubscribeHouseholdEventsCommand {
        requester_id: f.owner.id,
        household_id: f.household.id(),
    };

    let stage = command
        .on_access(f.world.require_member(f.household.id(), f.owner.id))
        .expect("member");

    assert_eq!(stage.household_id, f.household.id());
    assert_eq!(stage.on_subscribed(Ok::<u8, HouseholdEventSubscriberError>(3)), Ok(3));
}

#[test]
fn subscription_refusals_are_reported() {
    let f = shared_fixture();
    let outsider = SubscribeHouseholdEventsCommand {
        requester_id: f.member.id,
        household_id: f.household.id(),
    };
    assert_eq!(
        outsider
            .on_access(f.world.require_member(f.household.id(), f.member.id))
            .err(),
        Some(SubscribeHouseholdEventsError::HouseholdAccess(HouseholdAccessError::Forbidden))
    );

    let member = SubscribeHouseholdEventsCommand {
        requester_id: f.owner.id,
        household_id: f.household.id(),
    };
    let stage = member
        .on_access(f.world.require_member(f.household.id(), f.owner.id))
        .expect("member");
    assert_eq!(
        stage.on_subscribed(Err::<u8, _>(HouseholdEventSubscriberError::Unavailable)),
        Err(SubscribeHouseholdEventsError::Internal(InternalError::Failed))
    );
}

#[test]
fn get_household_use_case_runs_against_the_in_memory_store() {
    let f = shared_fixture();
    let service = GetHouseholdService::new((), ());

    let found = service.execute_in_memory(
        &f.world.households,
        GetHouseholdCommand { household_id: f.household.id(), requester_id: f.owner.id },
    );
    let refused = service.execute_in_memory(
        &f.world.households,
        GetHouseholdCommand { household_id: f.household.id(), requester_id: f.member.id },
    );

    assert_eq!(found, Ok(f.household.clone()));
    assert_eq!(
        refused,
        Err(GetHouseholdError::HouseholdAccess(HouseholdAccessError::Forbidden))
    );
}

#[test]
fn email_keeps_its_text_and_refuses_an_at_sign_at_either_end() {
    let email = Email::parse("member@email.com").expect("valid email");
    assert_eq!(email.as_str(), "member@email.com");
    assert_eq!(email.clone(), email);
    assert_eq!(email.duplicate().as_str(), "member@email.com");

    assert_eq!(Email::parse("a@b").map(|e| e.as_str().to_string()), Ok("a@b".to_string()));
    assert_eq!(Email::parse("@member").err(), Some(EmailError::Invalid));
    assert_eq!(Email::parse("member@").err(), Some(EmailError::Invalid));
    assert_eq!(Email::parse("@").err(), Some(EmailError::Invalid));
    assert_eq!(Email::parse("").err(), Some(EmailError::Invalid));
    assert_eq!(Email::parse("member.email.com").err(), Some(EmailError::Invalid));
}
