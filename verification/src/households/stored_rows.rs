use vstd::prelude::*;

use crate::accounts::UserId;
use crate::households::domain::{
    Household, HouseholdId, HouseholdKind, HouseholdMember, HouseholdName, HouseholdRole,
};
use crate::households::ports::HouseholdRepositoryError;
use crate::shared::{PersistenceError, is_blank_text, str_equal};

verus! {

/// A household as a row of the `households` table holds it.
pub struct HouseholdRow {
    pub id: u128,
    pub name: String,
    pub kind: String,
    pub personal_owner_id: Option<u128>,
    pub created_at: i64,
    pub updated_at: i64,
}

/// A membership as a row of the `household_members` table holds it.
pub struct HouseholdMemberRow {
    pub household_id: u128,
    pub user_id: u128,
    pub role: String,
    pub created_at: i64,
}

/// The user a stored user id names.
pub open spec fn stored_user(id: Option<u128>) -> Option<UserId> {
    match id {
        Some(value) => Some(UserId { value }),
        None => None,
    }
}

/// A stored household row describes a household: its name is not blank, its kind is a known
/// one, and it names an owner exactly when it is personal.
pub open spec fn household_row_is_valid(row: HouseholdRow) -> bool {
    &&& !is_blank_text(row.name@)
    &&& HouseholdKind::from_name(row.kind@) is Ok
    &&& Household::owner_matches_kind(
        HouseholdKind::from_name(row.kind@)->Ok_0,
        stored_user(row.personal_owner_id),
    )
}

impl Household {
    /// The household a stored row describes; a row that describes none is invalid stored
    /// data.
    pub fn try_from(row: HouseholdRow) -> (r: Result<Household, HouseholdRepositoryError>)
        ensures
            household_row_is_valid(row) <==> r is Ok,
            !household_row_is_valid(row) ==> r == Err::<Household, HouseholdRepositoryError>(
                HouseholdRepositoryError::InvalidStoredData,
            ),
            r matches Ok(h) ==> {
                &&& h.id == HouseholdId { value: row.id }
                &&& h.name.value@ == row.name@
                &&& h.kind == HouseholdKind::from_name(row.kind@)->Ok_0
                &&& h.personal_owner_id == stored_user(row.personal_owner_id)
                &&& h.created_at == row.created_at
                &&& h.updated_at == row.updated_at
            },
    {
        let name = match HouseholdName::parse(row.name.as_str()) {
            Ok(name) => name,
            Err(_) => return Err(HouseholdRepositoryError::InvalidStoredData),
        };
        let kind = match HouseholdKind::parse(row.kind.as_str()) {
            Ok(kind) => kind,
            Err(_) => return Err(HouseholdRepositoryError::InvalidStoredData),
        };
        let personal_owner_id = match row.personal_owner_id {
            Some(value) => Some(UserId::from_u128(value)),
            None => None,
        };
        match Household::new(
            HouseholdId::from_u128(row.id),
            name,
            kind,
            personal_owner_id,
            row.created_at,
            row.updated_at,
        ) {
            Ok(household) => Ok(household),
            Err(_) => Err(HouseholdRepositoryError::InvalidStoredData),
        }
    }
}

impl HouseholdMember {
    /// The membership a stored row describes; a row with an unknown role is invalid stored
    /// data.
    pub fn try_from(row: HouseholdMemberRow) -> (r: Result<HouseholdMember, HouseholdRepositoryError>)
        ensures
            HouseholdRole::from_name(row.role@) is Err ==> r == Err::<
                HouseholdMember,
                HouseholdRepositoryError,
            >(HouseholdRepositoryError::InvalidStoredData),
            HouseholdRole::from_name(row.role@) matches Ok(role) ==> r == Ok::<
                HouseholdMember,
                HouseholdRepositoryError,
            >(
                HouseholdMember {
                    household_id: HouseholdId { value: row.household_id },
                    user_id: UserId { value: row.user_id },
                    role: role,
                    created_at: row.created_at,
                },
            ),
    {
        let role = match HouseholdRole::parse(row.role.as_str()) {
            Ok(role) => role,
            Err(_) => return Err(HouseholdRepositoryError::InvalidStoredData),
        };
        Ok(
            HouseholdMember::new(
                HouseholdId::from_u128(row.household_id),
                UserId::from_u128(row.user_id),
                role,
                row.created_at,
            ),
        )
    }
}

/// What the database reported about a statement it refused: whether a unique constraint
/// was violated, and the name of the constraint involved, if it named one.
pub struct DatabaseErrorInfo {
    pub is_unique_violation: bool,
    pub constraint: Option<String>,
}

/// The refusal names the constraint `name`.
pub open spec fn names_constraint(info: DatabaseErrorInfo, name: Seq<char>) -> bool {
    info.constraint matches Some(c) && c@ == name
}

/// Whether the constraint that `info` names is `name`.
fn constraint_is(info: &DatabaseErrorInfo, name: &str) -> (r: bool)
    ensures
        r == names_constraint(*info, name@),
{
    match &info.constraint {
        Some(c) => str_equal(c.as_str(), name),
        None => false,
    }
}

/// Reads a failed insert of a household: a duplicate id and a second personal household of
/// the same owner have errors of their own; anything else, `database_error` being `None`
/// when the failure did not come from the database, is a persistence failure.
pub fn map_insert_error(database_error: Option<DatabaseErrorInfo>) -> (r: HouseholdRepositoryError)
    ensures
        r == (match database_error {
            Some(info) => if info.is_unique_violation && names_constraint(
                info,
                "households_pkey"@,
            ) {
                HouseholdRepositoryError::HouseholdAlreadyExists
            } else if info.is_unique_violation && names_constraint(
                info,
                "households_personal_owner_unique_idx"@,
            ) {
                HouseholdRepositoryError::PersonalHouseholdAlreadyExists
            } else {
                HouseholdRepositoryError::Persistence(PersistenceError::Failed)
            },
            None => HouseholdRepositoryError::Persistence(PersistenceError::Failed),
        }),
{
    if let Some(info) = database_error {
        if info.is_unique_violation {
            if constraint_is(&info, "households_pkey") {
                return HouseholdRepositoryError::HouseholdAlreadyExists;
            }
            if constraint_is(&info, "households_personal_owner_unique_idx") {
                return HouseholdRepositoryError::PersonalHouseholdAlreadyExists;
            }
        }
    }
    HouseholdRepositoryError::Persistence(PersistenceError::Failed)
}

/// Reads a failed insert of a membership: a duplicate membership and a missing household
/// have errors of their own; anything else is a persistence failure.
pub fn map_add_member_error(database_error: Option<DatabaseErrorInfo>) -> (r:
    HouseholdRepositoryError)
    ensures
        r == (match database_error {
            Some(info) => if info.is_unique_violation && names_constraint(
                info,
                "household_members_pkey"@,
            ) {
                HouseholdRepositoryError::MemberAlreadyExists
            } else if names_constraint(info, "household_members_household_fk"@) {
                HouseholdRepositoryError::HouseholdNotFound
            } else {
                HouseholdRepositoryError::Persistence(PersistenceError::Failed)
            },
            None => HouseholdRepositoryError::Persistence(PersistenceError::Failed),
        }),
{
    if let Some(info) = database_error {
        if info.is_unique_violation && constraint_is(&info, "household_members_pkey") {
            return HouseholdRepositoryError::MemberAlreadyExists;
        }
        if constraint_is(&info, "household_members_household_fk") {
            return HouseholdRepositoryError::HouseholdNotFound;
        }
    }
    HouseholdRepositoryError::Persistence(PersistenceError::Failed)
}

/// The outcome of a statement that should have changed one row: no row changed means the
/// row to change was not there, which is reported as `missing`.
pub fn require_changed_row(rows_affected: u64, missing: HouseholdRepositoryError) -> (r: Result<
    (),
    HouseholdRepositoryError,
>)
    ensures
        rows_affected == 0 ==> r == Err::<(), HouseholdRepositoryError>(missing),
        rows_affected > 0 ==> r is Ok,
{
    if rows_affected == 0 {
        Err(missing)
    } else {
        Ok(())
    }
}

} // verus!
