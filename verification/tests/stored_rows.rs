use backend::accounts::UserId;
use backend::households::domain::{
    Household, HouseholdId, HouseholdKind, HouseholdMember, HouseholdRole,
};
use backend::households::ports::HouseholdRepositoryError;
use backend::households::stored_rows::{
    map_add_member_error, map_insert_error, require_changed_row, DatabaseErrorInfo,
    HouseholdMemberRow, HouseholdRow,
};
use backend::shared::PersistenceError;

fn row(name: &str, kind: &str, owner: Option<u128>) -> HouseholdRow {
    HouseholdRow {
        id: 7,
        name: name.to_string(),
        kind: kind.to_string(),
        personal_owner_id: owner,
        created_at: 10,
        updated_at: 20,
    }
}

fn unique_violation(constraint: &str) -> Option<DatabaseErrorInfo> {
    Some(DatabaseErrorInfo {
        is_unique_violation: true,
        constraint: Some(constraint.to_string()),
    })
}

#[test]
fn stored_personal_household_is_read_back() {
    let household = Household::try_from(row("Home", "personal", Some(3))).expect("valid row");

    assert_eq!(household.id(), HouseholdId::from_u128(7));
    assert_eq!(household.name().as_str(), "Home");
    assert_eq!(household.kind(), HouseholdKind::Personal);
    assert_eq!(household.personal_owner_id(), Some(UserId::from_u128(3)));
    assert_eq!(household.created_at, 10);
    assert_eq!(household.updated_at, 20);
}

#[test]
fn stored_shared_household_is_read_back() {
    let household = Household::try_from(row("Flat", "shared", None)).expect("valid row");

    assert_eq!(household.kind(), HouseholdKind::Shared);
    assert_eq!(household.personal_owner_id(), None);
}

#[test]
fn stored_household_with_blank_name_is_invalid() {
    assert_eq!(
        Household::try_from(row("  ", "shared", None)),
        Err(HouseholdRepositoryError::InvalidStoredData)
    );
}

#[test]
fn stored_household_with_unknown_kind_is_invalid() {
    assert_eq!(
        Household::try_from(row("Flat", "commune", None)),
        Err(HouseholdRepositoryError::InvalidStoredData)
    );
}

#[test]
fn stored_household_whose_owner_does_not_match_its_kind_is_invalid() {
    assert_eq!(
        Household::try_from(row("Flat", "shared", Some(3))),
        Err(HouseholdRepositoryError::InvalidStoredData)
    );
    assert_eq!(
        Household::try_from(row("Home", "personal", None)),
        Err(HouseholdRepositoryError::InvalidStoredData)
    );
}

#[test]
fn stored_member_is_read_back() {
    let member = HouseholdMember::try_from(HouseholdMemberRow {
        household_id: 1,
        user_id: 2,
        role: "owner".to_string(),
        created_at: 5,
    });

    assert_eq!(
        member,
        Ok(HouseholdMember::new(
            HouseholdId::from_u128(1),
            UserId::from_u128(2),
            HouseholdRole::Owner,
            5
        ))
    );
}

#[test]
fn stored_member_with_unknown_role_is_invalid() {
    let member = HouseholdMember::try_from(HouseholdMemberRow {
        household_id: 1,
        user_id: 2,
        role: "admin".to_string(),
        created_at: 5,
    });

    assert_eq!(member, Err(HouseholdRepositoryError::InvalidStoredData));
}

#[test]
fn duplicate_household_id_is_reported() {
    assert_eq!(
        map_insert_error(unique_violation("households_pkey")),
        HouseholdRepositoryError::HouseholdAlreadyExists
    );
}

#[test]
fn second_personal_household_is_reported() {
    assert_eq!(
        map_insert_error(unique_violation("households_personal_owner_unique_idx")),
        HouseholdRepositoryError::PersonalHouseholdAlreadyExists
    );
}

#[test]
fn other_insert_failures_are_persistence_failures() {
    let failed = HouseholdRepositoryError::Persistence(PersistenceError::Failed);

    assert_eq!(map_insert_error(None), failed);
    assert_eq!(map_insert_error(unique_violation("other_idx")), failed);
    assert_eq!(
        map_insert_error(Some(DatabaseErrorInfo {
            is_unique_violation: false,
            constraint: Some("households_pkey".to_string()),
        })),
        failed
    );
}

#[test]
fn duplicate_membership_is_reported() {
    assert_eq!(
        map_add_member_error(unique_violation("household_members_pkey")),
        HouseholdRepositoryError::MemberAlreadyExists
    );
}

#[test]
fn membership_of_missing_household_is_reported() {
    assert_eq!(
        map_add_member_error(Some(DatabaseErrorInfo {
            is_unique_violation: false,
            constraint: Some("household_members_household_fk".to_string()),
        })),
        HouseholdRepositoryError::HouseholdNotFound
    );
}

#[test]
fn other_membership_failures_are_persistence_failures() {
    let failed = HouseholdRepositoryError::Persistence(PersistenceError::Failed);

    assert_eq!(map_add_member_error(None), failed);
    assert_eq!(
        map_add_member_error(Some(DatabaseErrorInfo {
            is_unique_violation: false,
            constraint: Some("household_members_pkey".to_string()),
        })),
        failed
    );
    assert_eq!(
        map_add_member_error(Some(DatabaseErrorInfo {
            is_unique_violation: true,
            constraint: None,
        })),
        failed
    );
}

#[test]
fn statement_that_changed_no_row_reports_the_missing_row() {
    assert_eq!(
        require_changed_row(0, HouseholdRepositoryError::MemberNotFound),
        Err(HouseholdRepositoryError::MemberNotFound)
    );
    assert_eq!(
        require_changed_row(1, HouseholdRepositoryError::MemberNotFound),
        Ok(())
    );
}
