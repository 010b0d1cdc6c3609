use vstd::prelude::*;

use crate::accounts::UserId;
use crate::shared::{is_blank, is_blank_text, str_equal};

verus! {

/// Identifier of a household.
#[derive(Debug, Clone, Copy, PartialEq, Eq, Hash, Structural)]
pub struct HouseholdId {
    pub value: u128,
}

impl HouseholdId {
    pub fn from_u128(value: u128) -> (r: Self)
        ensures
            r.value == value,
    {
        HouseholdId { value }
    }

    pub fn as_u128(&self) -> (r: u128)
        ensures
            r == self.value,
    {
        self.value
    }
}

/// Whether a household belongs to one user or is shared between several.
#[derive(Debug, Clone, Copy, PartialEq, Eq, Structural)]
pub enum HouseholdKind {
    Personal,
    Shared,
}

/// The stored name was none of the known household kinds.
#[derive(Debug, Clone, Copy, PartialEq, Eq, Structural)]
pub enum HouseholdKindError {
    Invalid,
}

impl HouseholdKind {
    pub open spec fn name(self) -> Seq<char> {
        match self {
            HouseholdKind::Personal => "personal"@,
            HouseholdKind::Shared => "shared"@,
        }
    }

    pub open spec fn from_name(s: Seq<char>) -> Result<Self, HouseholdKindError> {
        if s == "personal"@ {
            Ok(HouseholdKind::Personal)
        } else if s == "shared"@ {
            Ok(HouseholdKind::Shared)
        } else {
            Err(HouseholdKindError::Invalid)
        }
    }

    pub fn parse(value: &str) -> (r: Result<Self, HouseholdKindError>)
        ensures
            r == Self::from_name(value@),
    {
        if str_equal(value, "personal") {
            Ok(HouseholdKind::Personal)
        } else if str_equal(value, "shared") {
            Ok(HouseholdKind::Shared)
        } else {
            Err(HouseholdKindError::Invalid)
        }
    }

    pub fn as_str(&self) -> (r: &'static str)
        ensures
            r@ == self.name(),
    {
        match self {
            HouseholdKind::Personal => "personal",
            HouseholdKind::Shared => "shared",
        }
    }
}


/// A stored name that parses is the name of the kind it parses to.
pub proof fn lemma_household_kind_name_of_parsed(stored: Seq<char>)
    ensures
        HouseholdKind::from_name(stored) matches Ok(kind) ==> kind.name() == stored,
{
}
/// Parsing the stored name of a household kind gives the kind back.
pub proof fn lemma_household_kind_round_trip(kind: HouseholdKind)
    ensures
        HouseholdKind::from_name(kind.name()) == Ok::<HouseholdKind, HouseholdKindError>(kind),
{
    reveal_strlit("personal");
    reveal_strlit("shared");
    assert("personal"@.len() != "shared"@.len());
}

/// The role a member has in a household.
#[derive(Debug, Clone, Copy, PartialEq, Eq, Structural)]
pub enum HouseholdRole {
    Owner,
    Member,
}

/// The stored name was none of the known household roles.
#[derive(Debug, Clone, Copy, PartialEq, Eq, Structural)]
pub enum HouseholdRoleError {
    Invalid,
}

impl HouseholdRole {
    pub open spec fn name(self) -> Seq<char> {
        match self {
            HouseholdRole::Owner => "owner"@,
            HouseholdRole::Member => "member"@,
        }
    }

    pub open spec fn from_name(s: Seq<char>) -> Result<Self, HouseholdRoleError> {
        if s == "owner"@ {
            Ok(HouseholdRole::Owner)
        } else if s == "member"@ {
            Ok(HouseholdRole::Member)
        } else {
            Err(HouseholdRoleError::Invalid)
        }
    }

    pub fn parse(value: &str) -> (r: Result<Self, HouseholdRoleError>)
        ensures
            r == Self::from_name(value@),
    {
        if str_equal(value, "owner") {
            Ok(HouseholdRole::Owner)
        } else if str_equal(value, "member") {
            Ok(HouseholdRole::Member)
        } else {
            Err(HouseholdRoleError::Invalid)
        }
    }

    pub fn as_str(&self) -> (r: &'static str)
        ensures
            r@ == self.name(),
    {
        match self {
            HouseholdRole::Owner => "owner",
            HouseholdRole::Member => "member",
        }
    }
}


/// A stored name that parses is the name of the role it parses to.
pub proof fn lemma_household_role_name_of_parsed(stored: Seq<char>)
    ensures
        HouseholdRole::from_name(stored) matches Ok(role) ==> role.name() == stored,
{
}
/// Parsing the stored name of a role gives the role back.
pub proof fn lemma_household_role_round_trip(role: HouseholdRole)
    ensures
        HouseholdRole::from_name(role.name()) == Ok::<HouseholdRole, HouseholdRoleError>(role),
{
    reveal_strlit("owner");
    reveal_strlit("member");
    assert("owner"@.len() != "member"@.len());
}

/// The name of a household: any text that is not blank.
#[derive(Debug, Clone, PartialEq, Eq)]
pub struct HouseholdName {
    pub value: String,
}

/// The given household name was blank.
#[derive(Debug, Clone, Copy, PartialEq, Eq, Structural)]
pub enum HouseholdNameError {
    Blank,
}

impl HouseholdName {
    pub fn parse(value: &str) -> (r: Result<Self, HouseholdNameError>)
        ensures
            is_blank_text(value@) ==> r == Err::<Self, HouseholdNameError>(HouseholdNameError::Blank),
            !is_blank_text(value@) ==> r is Ok && r->Ok_0.value@ == value@,
    {
        if is_blank(value) {
            Err(HouseholdNameError::Blank)
        } else {
            Ok(HouseholdName { value: value.to_owned() })
        }
    }

    pub fn as_str(&self) -> (r: &str)
        ensures
            r@ == self.value@,
    {
        self.value.as_str()
    }

    /// A copy of the name.
    pub fn duplicate(&self) -> (r: Self)
        ensures
            r == *self,
    {
        HouseholdName { value: self.value.clone() }
    }
}

/// A household was built with an owner that does not match its kind.
#[derive(Debug, Clone, Copy, PartialEq, Eq, Structural)]
pub enum HouseholdError {
    /// A personal household needs its owner, and a shared one has none.
    PersonalOwnerMismatch,
}

/// A household: a personal one names the user it belongs to, a shared one names nobody.
#[derive(Debug, Clone, PartialEq, Eq)]
pub struct Household {
    pub id: HouseholdId,
    pub name: HouseholdName,
    pub kind: HouseholdKind,
    pub personal_owner_id: Option<UserId>,
    pub created_at: i64,
    pub updated_at: i64,
}

impl Household {
    /// A personal household has an owner and a shared one has none.
    pub open spec fn owner_matches_kind(kind: HouseholdKind, owner: Option<UserId>) -> bool {
        (kind == HouseholdKind::Personal) == owner.is_some()
    }

    pub open spec fn wf(self) -> bool {
        Self::owner_matches_kind(self.kind, self.personal_owner_id)
    }

    pub fn new(
        id: HouseholdId,
        name: HouseholdName,
        kind: HouseholdKind,
        personal_owner_id: Option<UserId>,
        created_at: i64,
        updated_at: i64,
    ) -> (r: Result<Self, HouseholdError>)
        ensures
            Self::owner_matches_kind(kind, personal_owner_id) ==> r == Ok::<Self, HouseholdError>(
                Household { id, name, kind, personal_owner_id, created_at, updated_at },
            ),
            !Self::owner_matches_kind(kind, personal_owner_id) ==> r == Err::<Self, HouseholdError>(
                HouseholdError::PersonalOwnerMismatch,
            ),
    {
        let is_personal = match kind {
            HouseholdKind::Personal => true,
            HouseholdKind::Shared => false,
        };
        if is_personal != personal_owner_id.is_some() {
            return Err(HouseholdError::PersonalOwnerMismatch);
        }
        Ok(Household { id, name, kind, personal_owner_id, created_at, updated_at })
    }

    /// Gives the household a new name, stamped with the time of the change.
    pub fn rename(&mut self, name: HouseholdName, now: i64)
        ensures
            *final(self) == (Household { name: name, updated_at: now, ..*old(self) }),
    {
        self.name = name;
        self.updated_at = now;
    }

    /// A copy of the household.
    pub fn duplicate(&self) -> (r: Self)
        ensures
            r == *self,
    {
        Household {
            id: self.id,
            name: self.name.duplicate(),
            kind: self.kind,
            personal_owner_id: self.personal_owner_id,
            created_at: self.created_at,
            updated_at: self.updated_at,
        }
    }

    pub fn id(&self) -> (r: HouseholdId)
        ensures
            r == self.id,
    {
        self.id
    }

    pub fn name(&self) -> (r: &HouseholdName)
        ensures
            *r == self.name,
    {
        &self.name
    }

    pub fn kind(&self) -> (r: HouseholdKind)
        ensures
            r == self.kind,
    {
        self.kind
    }

    pub fn personal_owner_id(&self) -> (r: Option<UserId>)
        ensures
            r == self.personal_owner_id,
    {
        self.personal_owner_id
    }
}

/// The membership of a user in a household.
#[derive(Debug, Clone, Copy, PartialEq, Eq, Structural)]
pub struct HouseholdMember {
    pub household_id: HouseholdId,
    pub user_id: UserId,
    pub role: HouseholdRole,
    pub created_at: i64,
}

impl HouseholdMember {
    pub fn new(household_id: HouseholdId, user_id: UserId, role: HouseholdRole, created_at: i64) -> (r: Self)
        ensures
            r == (HouseholdMember { household_id, user_id, role, created_at }),
    {
        HouseholdMember { household_id, user_id, role, created_at }
    }

    pub fn household_id(&self) -> (r: HouseholdId)
        ensures
            r == self.household_id,
    {
        self.household_id
    }

    pub fn user_id(&self) -> (r: UserId)
        ensures
            r == self.user_id,
    {
        self.user_id
    }

    pub fn role(&self) -> (r: HouseholdRole)
        ensures
            r == self.role,
    {
        self.role
    }
}

/// Something that changed in a household and that its members' views should follow.
#[derive(Debug, Clone, Copy, PartialEq, Eq, Structural)]
pub enum HouseholdEvent {
    ShoppingListChanged,
    InventoryCategoriesChanged,
    InventoryItemsChanged,
    HouseholdChanged,
}

} // verus!
