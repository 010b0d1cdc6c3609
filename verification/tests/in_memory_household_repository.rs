use backend::accounts::UserId;
use backend::households::domain::{
    Household, HouseholdError, HouseholdId, HouseholdKind, HouseholdMember, HouseholdName,
    HouseholdRole,
};
use backend::households::in_memory_repository::InMemoryHouseholdRepository;
use backend::households::ports::HouseholdRepositoryError;
use std::sync::atomic::{AtomicU64, Ordering};

static NEXT_ID: AtomicU64 = AtomicU64::new(1);

fn fresh() -> u128 {
    NEXT_ID.fetch_add(1, Ordering::SeqCst) as u128
}

fn new_household_id() -> HouseholdId {
    HouseholdId::from_u128(fresh())
}

fn new_user_id() -> UserId {
    UserId::from_u128(fresh() + 1_000_000)
}

const NOW: i64 = 1_700_000_000_000_000;

fn create_household(
    id: HouseholdId,
    kind: HouseholdKind,
    personal_owner_id: Option<UserId>,
) -> Result<Household, HouseholdError> {
    Household::new(
        id,
        HouseholdName::parse("This is a name").expect("Test name should be valid"),
        kind,
        personal_owner_id,
        NOW,
        NOW,
    )
}

fn create_owned_household(user_id: UserId, kind: HouseholdKind) -> (Household, HouseholdMember) {
    let household_id = new_household_id();

    let owner = HouseholdMember::new(household_id, user_id, HouseholdRole::Owner, NOW);

    let personal_owner_id = match kind {
        HouseholdKind::Personal => Some(user_id),
        HouseholdKind::Shared => None,
    };

    let household = Household::new(
        household_id,
        HouseholdName::parse("Test household").expect("Test household name should be valid"),
        kind,
        personal_owner_id,
        NOW,
        NOW,
    )
    .expect("Test household should be valid");

    (household, owner)
}

fn create_household_member(
    household_id: HouseholdId,
    user_id: UserId,
    role: HouseholdRole,
) -> HouseholdMember {
    HouseholdMember::new(household_id, user_id, role, NOW)
}

#[test]
fn personal_household_with_owner_can_be_created() {
    let mut repository = InMemoryHouseholdRepository::new();

    let (household, owner) = create_owned_household(new_user_id(), HouseholdKind::Personal);

    let result = repository.create_with_owner(&household, &owner);

    assert!(result.is_ok())
}

#[test]
fn shared_household_with_owner_can_be_created() {
    let mut repository = InMemoryHouseholdRepository::new();

    let (household, owner) = create_owned_household(new_user_id(), HouseholdKind::Shared);

    let result = repository.create_with_owner(&household, &owner);

    assert!(result.is_ok())
}

#[test]
fn created_household_can_be_found_by_id() {
    let mut repository = InMemoryHouseholdRepository::new();

    let (household, owner) = create_owned_household(new_user_id(), HouseholdKind::Shared);

    repository
        .create_with_owner(&household, &owner)
        .expect("Household creation should succeed");

    let result = repository.find_by_id(household.id());

    assert_eq!(result, Some(household))
}

#[test]
fn personal_household_can_be_found_by_owner() {
    let mut repository = InMemoryHouseholdRepository::new();

    let (household, owner) = create_owned_household(new_user_id(), HouseholdKind::Personal);

    repository
        .create_with_owner(&household, &owner)
        .expect("Household creation should succeed");

    let result = repository.find_personal_by_owner(owner.user_id());

    assert_eq!(result, Some(household))
}

#[test]
fn households_for_user_are_returned() {
    let mut repository = InMemoryHouseholdRepository::new();

    let user_id = new_user_id();

    let (personal_household, personal_owner) =
        create_owned_household(user_id, HouseholdKind::Personal);
    let (shared_household, shared_owner) = create_owned_household(user_id, HouseholdKind::Shared);

    repository
        .create_with_owner(&personal_household, &personal_owner)
        .expect("Personal household creation should succeed");
    repository
        .create_with_owner(&shared_household, &shared_owner)
        .expect("Shared household creation should succeed");

    let result = repository.find_for_user(personal_owner.user_id());

    assert_eq!(result.len(), 2);
    assert!(result.contains(&personal_household));
    assert!(result.contains(&shared_household))
}

#[test]
fn duplicate_personal_household_is_rejected() {
    let mut repository = InMemoryHouseholdRepository::new();

    let user_id = new_user_id();

    let (personal_household, first_owner) =
        create_owned_household(user_id, HouseholdKind::Personal);
    let (another_personal_household, second_owner) =
        create_owned_household(user_id, HouseholdKind::Personal);

    repository
        .create_with_owner(&personal_household, &first_owner)
        .expect("Household creation should succeed");

    let result = repository.create_with_owner(&another_personal_household, &second_owner);

    assert_eq!(
        result,
        Err(HouseholdRepositoryError::PersonalHouseholdAlreadyExists)
    )
}

#[test]
fn inconsistent_owner_membership_is_rejected() {
    let mut repository = InMemoryHouseholdRepository::new();

    let user_id = new_user_id();
    let household_id = new_household_id();
    let another_household_id = new_household_id();

    let household = create_household(household_id, HouseholdKind::Shared, None)
        .expect("Test household should be valid");

    let owner = create_household_member(another_household_id, user_id, HouseholdRole::Owner);

    let result = repository.create_with_owner(&household, &owner);

    assert_eq!(result, Err(HouseholdRepositoryError::InvalidAggregate))
}

#[test]
fn non_owner_membership_is_rejected() {
    let mut repository = InMemoryHouseholdRepository::new();

    let user_id = new_user_id();
    let household_id = new_household_id();

    let household = create_household(household_id, HouseholdKind::Shared, None)
        .expect("Test household should be valid");

    let owner = create_household_member(household_id, user_id, HouseholdRole::Member);

    let result = repository.create_with_owner(&household, &owner);

    assert_eq!(result, Err(HouseholdRepositoryError::InvalidAggregate))
}

#[test]
fn unknown_household_returns_none() {
    let repository = InMemoryHouseholdRepository::default();

    let result = repository.find_by_id(new_household_id());

    assert!(result.is_none())
}

#[test]
fn user_without_households_returns_empty_list() {
    let repository = InMemoryHouseholdRepository::default();

    let result = repository.find_for_user(new_user_id());

    assert!(result.is_empty())
}

#[test]
fn existing_member_ship_is_returned() {
    let mut repository = InMemoryHouseholdRepository::default();

    let (household, owner) = create_owned_household(new_user_id(), HouseholdKind::Shared);

    repository
        .create_with_owner(&household, &owner)
        .expect("Household creation should succeed");

    let result = repository.find_member(household.id(), owner.user_id());

    assert_eq!(result, Some(owner))
}

#[test]
fn unknown_member_returns_none() {
    let repository = InMemoryHouseholdRepository::default();

    let household_id = new_household_id();
    let user_id = new_user_id();

    let result = repository.find_member(household_id, user_id);

    assert!(result.is_none())
}

#[test]
fn member_lookup_is_scoped_to_household() {
    let mut repository = InMemoryHouseholdRepository::default();

    let user_id = new_user_id();

    let (household, owner) = create_owned_household(user_id, HouseholdKind::Shared);

    repository
        .create_with_owner(&household, &owner)
        .expect("Household creation should succeed");

    let result = repository.find_member(new_household_id(), owner.user_id());

    assert!(result.is_none())
}

#[test]
fn member_can_be_added_to_existing_household() {
    let mut repository = InMemoryHouseholdRepository::default();

    let owner_id = new_user_id();
    let member_id = new_user_id();

    let (household, owner) = create_owned_household(owner_id, HouseholdKind::Shared);

    repository
        .create_with_owner(&household, &owner)
        .expect("Household creation should succeed");

    let member = HouseholdMember::new(household.id(), member_id, HouseholdRole::Member, NOW);

    let result = repository.add_member(member);

    assert!(result.is_ok())
}

#[test]
fn added_member_can_be_found() {
    let mut repository = InMemoryHouseholdRepository::default();

    let owner_id = new_user_id();
    let member_id = new_user_id();

    let (household, owner) = create_owned_household(owner_id, HouseholdKind::Shared);

    repository
        .create_with_owner(&household, &owner)
        .expect("Household creation should succeed");

    let member = HouseholdMember::new(household.id(), member_id, HouseholdRole::Member, NOW);

    repository
        .add_member(member)
        .expect("Adding member should succeed");

    let stored = repository.find_member(household.id(), member_id);

    assert_eq!(stored, Some(member))
}

#[test]
fn duplicate_member_is_rejected() {
    let mut repository = InMemoryHouseholdRepository::default();

    let owner_id = new_user_id();
    let member_id = new_user_id();

    let (household, owner) = create_owned_household(owner_id, HouseholdKind::Shared);

    repository
        .create_with_owner(&household, &owner)
        .expect("Household creation should succeed");

    let member = HouseholdMember::new(household.id(), member_id, HouseholdRole::Member, NOW);

    repository
        .add_member(member)
        .expect("Adding member should succeed");

    let result = repository.add_member(member);

    assert_eq!(result, Err(HouseholdRepositoryError::MemberAlreadyExists))
}

#[test]
fn member_cannot_be_added_to_unknown_household() {
    let mut repository = InMemoryHouseholdRepository::default();

    let member = HouseholdMember::new(
        new_household_id(),
        new_user_id(),
        HouseholdRole::Member,
        NOW,
    );

    let result = repository.add_member(member);

    assert_eq!(result, Err(HouseholdRepositoryError::HouseholdNotFound))
}

#[test]
fn find_members_returns_all_members_of_household() {
    let mut repository = InMemoryHouseholdRepository::default();

    let (household, owner) = create_owned_household(new_user_id(), HouseholdKind::Shared);

    repository
        .create_with_owner(&household, &owner)
        .expect("Household creation should succeed");

    let member_id = new_user_id();

    let member = HouseholdMember::new(household.id(), member_id, HouseholdRole::Member, NOW);

    repository
        .add_member(member)
        .expect("Adding member should succeed");

    let result = repository.find_members(household.id());

    assert_eq!(result.len(), 2);
    assert!(result.contains(&owner));
    assert!(result.contains(&member))
}

#[test]
fn find_members_does_not_return_members_of_other_households() {
    let mut repository = InMemoryHouseholdRepository::default();

    let (household, owner) = create_owned_household(new_user_id(), HouseholdKind::Shared);

    let (another_household, another_owner) =
        create_owned_household(new_user_id(), HouseholdKind::Shared);

    repository
        .create_with_owner(&household, &owner)
        .expect("Household creation should succeed");

    repository
        .create_with_owner(&another_household, &another_owner)
        .expect("Household creation should succeed");

    let member_id = new_user_id();

    let member = HouseholdMember::new(household.id(), member_id, HouseholdRole::Member, NOW);

    repository
        .add_member(member)
        .expect("Adding member should succeed");

    let result = repository.find_members(household.id());

    assert_eq!(result.len(), 2);
    assert!(
        result
            .iter()
            .all(|member| member.household_id() == household.id())
    )
}

#[test]
fn find_members_for_unknown_household_returns_empty_vec() {
    let repository = InMemoryHouseholdRepository::default();

    let result = repository.find_members(new_household_id());

    assert!(result.is_empty());
}

#[test]
fn existing_member_can_be_removed() {
    let mut repository = InMemoryHouseholdRepository::default();

    let owner_id = new_user_id();
    let member_id = new_user_id();

    let (household, owner) = create_owned_household(owner_id, HouseholdKind::Shared);

    repository
        .create_with_owner(&household, &owner)
        .expect("Household creation should succeed");

    let member = HouseholdMember::new(household.id(), member_id, HouseholdRole::Member, NOW);

    repository
        .add_member(member)
        .expect("Adding member should succeed");

    let result = repository.remove_member(household.id(), member_id);

    assert!(result.is_ok())
}

#[test]
fn removed_member_can_no_longer_be_found() {
    let mut repository = InMemoryHouseholdRepository::default();

    let owner_id = new_user_id();
    let member_id = new_user_id();

    let (household, owner) = create_owned_household(owner_id, HouseholdKind::Shared);

    repository
        .create_with_owner(&household, &owner)
        .expect("Household creation should succeed");

    let member = HouseholdMember::new(household.id(), member_id, HouseholdRole::Member, NOW);

    repository
        .add_member(member)
        .expect("Adding member should succeed");

    repository
        .remove_member(household.id(), member_id)
        .expect("Removing member should succeed");

    let result = repository.find_member(household.id(), member_id);

    assert!(result.is_none())
}

#[test]
fn removing_unknown_member_returns_not_found() {
    let mut repository = InMemoryHouseholdRepository::default();

    let owner_id = new_user_id();
    let member_id = new_user_id();

    let (household, owner) = create_owned_household(owner_id, HouseholdKind::Shared);

    repository
        .create_with_owner(&household, &owner)
        .expect("Household creation should succeed");

    let result = repository.remove_member(household.id(), member_id);

    assert_eq!(result, Err(HouseholdRepositoryError::MemberNotFound))
}

#[test]
fn updated_household_can_be_loaded() {
    let mut repository = InMemoryHouseholdRepository::new();

    let (mut household, owner) = create_owned_household(new_user_id(), HouseholdKind::Shared);

    repository
        .create_with_owner(&household, &owner)
        .expect("Household creation should succeed");

    let new_name =
        HouseholdName::parse("Updated household").expect("Test household name should be valid");

    household.rename(new_name, NOW + 1);

    repository
        .update(&household)
        .expect("Household update should succeed");

    let stored = repository
        .find_by_id(household.id())
        .expect("Household should succeed");

    assert_eq!(stored, household)
}

#[test]
fn updating_unknown_household_returns_household_not_found() {
    let mut repository = InMemoryHouseholdRepository::new();

    let owner_id = new_user_id();

    let (mut household, _) = create_owned_household(owner_id, HouseholdKind::Shared);

    let new_name =
        HouseholdName::parse("Updated household").expect("Test household name should be valid");

    household.rename(new_name, NOW + 1);

    let result = repository.update(&household);

    assert_eq!(result, Err(HouseholdRepositoryError::HouseholdNotFound))
}

#[test]
fn removing_a_just_added_member_restores_the_listing() {
    let mut repository = InMemoryHouseholdRepository::new();

    let (household, owner) = create_owned_household(new_user_id(), HouseholdKind::Shared);
    repository
        .create_with_owner(&household, &owner)
        .expect("Household creation should succeed");
    let before = repository.find_members(household.id());

    let member = HouseholdMember::new(household.id(), new_user_id(), HouseholdRole::Member, NOW);
    repository.add_member(member).expect("Adding member should succeed");
    repository
        .remove_member(member.household_id(), member.user_id())
        .expect("Removing member should succeed");

    assert_eq!(repository.find_members(household.id()), before);
}

#[test]
fn failed_creation_leaves_the_store_unchanged() {
    let mut repository = InMemoryHouseholdRepository::new();

    let (household, owner) = create_owned_household(new_user_id(), HouseholdKind::Shared);
    repository
        .create_with_owner(&household, &owner)
        .expect("Household creation should succeed");

    let other_owner = create_household_member(household.id(), new_user_id(), HouseholdRole::Owner);
    let result = repository.create_with_owner(&household, &other_owner);

    assert_eq!(result, Err(HouseholdRepositoryError::HouseholdAlreadyExists));
    assert_eq!(repository.find_member(household.id(), other_owner.user_id()), None);
    assert_eq!(repository.find_members(household.id()), vec![owner]);
}
