use vstd::prelude::*;

use crate::accounts::UserId;
use crate::devices::DeviceId;
use crate::households::domain::HouseholdId;
use crate::shared::{
    is_blank, is_blank_text, lowercase, lowercase_of, random_uuid, str_equal, uuid_value,
};

verus! {

/// Identifier of an inventory item.
#[derive(Debug, Clone, Copy, PartialEq, Eq, Hash, Structural)]
pub struct InventoryItemId {
    pub value: u128,
}

impl InventoryItemId {
    /// A fresh random identifier.
    pub fn new() -> (r: Self) {
        InventoryItemId { value: uuid_value(&random_uuid()) }
    }

    pub fn from_u128(value: u128) -> (r: Self)
        ensures
            r.value == value,
    {
        InventoryItemId { value }
    }

    pub fn as_u128(&self) -> (r: u128)
        ensures
            r == self.value,
    {
        self.value
    }
}

/// Identifier of an inventory category.
#[derive(Debug, Clone, Copy, PartialEq, Eq, Hash, Structural)]
pub struct CategoryId {
    pub value: u128,
}

impl CategoryId {
    /// A fresh random identifier.
    pub fn new() -> (r: Self) {
        CategoryId { value: uuid_value(&random_uuid()) }
    }

    pub fn from_u128(value: u128) -> (r: Self)
        ensures
            r.value == value,
    {
        CategoryId { value }
    }

    pub fn as_u128(&self) -> (r: u128)
        ensures
            r == self.value,
    {
        self.value
    }
}

/// The given name was blank.
#[derive(Debug, Clone, Copy, PartialEq, Eq, Structural)]
pub enum InventoryItemNameError {
    Blank,
}

/// The name of an inventory item: any text that is not blank.
#[derive(Debug, Clone, PartialEq, Eq)]
pub struct InventoryItemName {
    pub value: String,
}

impl InventoryItemName {
    pub fn parse(value: &str) -> (r: Result<Self, InventoryItemNameError>)
        ensures
            is_blank_text(value@) ==> r == Err::<Self, InventoryItemNameError>(
                InventoryItemNameError::Blank,
            ),
            !is_blank_text(value@) ==> r is Ok && r->Ok_0.value@ == value@,
    {
        if is_blank(value) {
            Err(InventoryItemNameError::Blank)
        } else {
            Ok(InventoryItemName { value: value.to_owned() })
        }
    }

    pub fn as_str(&self) -> (r: &str)
        ensures
            r@ == self.value@,
    {
        self.value.as_str()
    }

    /// The name in the form names are compared in: lowercase.
    pub fn normalized(&self) -> (r: String)
        ensures
            r@ == lowercase_of(self.value@),
    {
        lowercase(self.value.as_str())
    }

    /// A copy of the name.
    pub fn duplicate(&self) -> (r: Self)
        ensures
            r == *self,
    {
        InventoryItemName { value: self.value.clone() }
    }
}

/// The given name was blank.
#[derive(Debug, Clone, Copy, PartialEq, Eq, Structural)]
pub enum CategoryNameError {
    Blank,
}

/// The name of a category: any text that is not blank.
#[derive(Debug, Clone, PartialEq, Eq)]
pub struct CategoryName {
    pub value: String,
}

impl CategoryName {
    pub fn parse(value: &str) -> (r: Result<Self, CategoryNameError>)
        ensures
            is_blank_text(value@) ==> r == Err::<Self, CategoryNameError>(CategoryNameError::Blank),
            !is_blank_text(value@) ==> r is Ok && r->Ok_0.value@ == value@,
    {
        if is_blank(value) {
            Err(CategoryNameError::Blank)
        } else {
            Ok(CategoryName { value: value.to_owned() })
        }
    }

    pub fn as_str(&self) -> (r: &str)
        ensures
            r@ == self.value@,
    {
        self.value.as_str()
    }

    /// The name in the form names are compared in: lowercase.
    pub fn normalized(&self) -> (r: String)
        ensures
            r@ == lowercase_of(self.value@),
    {
        lowercase(self.value.as_str())
    }
}

/// How urgently an item should be restocked.
#[derive(Debug, Clone, Copy, PartialEq, Eq, Structural)]
pub enum InventoryPriority {
    Low,
    Default,
    High,
}

/// The given text was none of the known priorities.
#[derive(Debug, Clone, Copy, PartialEq, Eq, Structural)]
pub enum InventoryPriorityError {
    Invalid,
}

impl InventoryPriority {
    pub open spec fn name(self) -> Seq<char> {
        match self {
            InventoryPriority::Low => "low"@,
            InventoryPriority::Default => "default"@,
            InventoryPriority::High => "high"@,
        }
    }

    pub open spec fn from_name(s: Seq<char>) -> Result<Self, InventoryPriorityError> {
        if s == "low"@ {
            Ok(InventoryPriority::Low)
        } else if s == "default"@ {
            Ok(InventoryPriority::Default)
        } else if s == "high"@ {
            Ok(InventoryPriority::High)
        } else {
            Err(InventoryPriorityError::Invalid)
        }
    }

    pub fn parse(value: &str) -> (r: Result<Self, InventoryPriorityError>)
        ensures
            r == Self::from_name(value@),
    {
        if str_equal(value, "low") {
            Ok(InventoryPriority::Low)
        } else if str_equal(value, "default") {
            Ok(InventoryPriority::Default)
        } else if str_equal(value, "high") {
            Ok(InventoryPriority::High)
        } else {
            Err(InventoryPriorityError::Invalid)
        }
    }

    pub fn as_str(&self) -> (r: &'static str)
        ensures
            r@ == self.name(),
    {
        match self {
            InventoryPriority::Low => "low",
            InventoryPriority::Default => "default",
            InventoryPriority::High => "high",
        }
    }
}

impl core::default::Default for InventoryPriority {
    fn default() -> (r: Self)
        ensures
            r == InventoryPriority::Default,
    {
        InventoryPriority::Default
    }
}


/// A stored name that parses is the name of the priority it parses to.
pub proof fn lemma_inventory_priority_name_of_parsed(stored: Seq<char>)
    ensures
        InventoryPriority::from_name(stored) matches Ok(priority) ==> priority.name() == stored,
{
}
/// Parsing the name of a priority gives the priority back.
pub proof fn lemma_inventory_priority_round_trip(priority: InventoryPriority)
    ensures
        InventoryPriority::from_name(priority.name()) == Ok::<
            InventoryPriority,
            InventoryPriorityError,
        >(priority),
{
    reveal_strlit("low");
    reveal_strlit("default");
    reveal_strlit("high");
    assert("low"@.len() != "default"@.len());
    assert("low"@[0] != "high"@[0]);
    assert("default"@.len() != "high"@.len());
}

/// A category that a household sorts its inventory items into.
#[derive(Debug, Clone, PartialEq, Eq)]
pub struct Category {
    pub id: CategoryId,
    pub household_id: HouseholdId,
    pub name: CategoryName,
    pub created_at: i64,
    pub updated_at: i64,
}

impl Category {
    pub fn new(id: CategoryId, household_id: HouseholdId, name: CategoryName, created_at: i64, updated_at: i64) -> (r: Self)
        ensures
            r == (Category { id, household_id, name, created_at, updated_at }),
    {
        Category { id, household_id, name, created_at, updated_at }
    }

    /// Gives the category a new name, stamped with the time of the change.
    pub fn rename(&mut self, name: CategoryName, now: i64)
        ensures
            *final(self) == (Category { name: name, updated_at: now, ..*old(self) }),
    {
        self.name = name;
        self.updated_at = now;
    }

    pub fn id(&self) -> (r: CategoryId)
        ensures
            r == self.id,
    {
        self.id
    }
}

/// Why an inventory item refused a change.
#[derive(Debug, Clone, Copy, PartialEq, Eq, Structural)]
pub enum InventoryItemError {
    /// An archived item cannot be changed.
    Archived,
    AlreadyArchived,
    NotArchived,
}

/// Something a household keeps in stock.
#[derive(Debug, Clone, PartialEq, Eq)]
pub struct InventoryItem {
    pub id: InventoryItemId,
    pub household_id: HouseholdId,
    pub category_id: Option<CategoryId>,
    pub name: InventoryItemName,
    pub current_stock: u32,
    pub reorder_threshold: u32,
    pub priority: InventoryPriority,
    pub archived_at: Option<i64>,
    pub created_at: i64,
    pub updated_at: i64,
}

impl InventoryItem {
    /// A new item, not archived.
    pub fn new(
        id: InventoryItemId,
        household_id: HouseholdId,
        category_id: Option<CategoryId>,
        name: InventoryItemName,
        current_stock: u32,
        reorder_threshold: u32,
        priority: InventoryPriority,
        created_at: i64,
        updated_at: i64,
    ) -> (r: Self)
        ensures
            r == (InventoryItem {
                id,
                household_id,
                category_id,
                name,
                current_stock,
                reorder_threshold,
                priority,
                archived_at: None,
                created_at,
                updated_at,
            }),
    {
        InventoryItem {
            id,
            household_id,
            category_id,
            name,
            current_stock,
            reorder_threshold,
            priority,
            archived_at: None,
            created_at,
            updated_at,
        }
    }

    pub open spec fn is_archived(self) -> bool {
        self.archived_at is Some
    }

    /// The item archived at `now`.
    pub open spec fn archived_as_of(self, now: i64) -> InventoryItem {
        InventoryItem { archived_at: Some(now), updated_at: now, ..self }
    }

    /// The item brought back at `now`.
    pub open spec fn restored_as_of(self, now: i64) -> InventoryItem {
        InventoryItem { archived_at: None, updated_at: now, ..self }
    }

    /// Archives the item at `now`; an archived item stays as it is.
    pub fn archive(&mut self, now: i64) -> (r: Result<(), InventoryItemError>)
        ensures
            old(self).is_archived() ==> r == Err::<(), InventoryItemError>(
                InventoryItemError::AlreadyArchived,
            ) && *final(self) == *old(self),
            !old(self).is_archived() ==> r is Ok && *final(self) == old(self).archived_as_of(now),
    {
        if self.archived_at.is_some() {
            return Err(InventoryItemError::AlreadyArchived);
        }
        self.archived_at = Some(now);
        self.updated_at = now;
        Ok(())
    }

    /// Brings an archived item back at `now`; an active item stays as it is.
    pub fn restore(&mut self, now: i64) -> (r: Result<(), InventoryItemError>)
        ensures
            !old(self).is_archived() ==> r == Err::<(), InventoryItemError>(
                InventoryItemError::NotArchived,
            ) && *final(self) == *old(self),
            old(self).is_archived() ==> r is Ok && *final(self) == old(self).restored_as_of(now),
    {
        if self.archived_at.is_none() {
            return Err(InventoryItemError::NotArchived);
        }
        self.archived_at = None;
        self.updated_at = now;
        Ok(())
    }

    pub fn rename(&mut self, name: InventoryItemName, now: i64) -> (r: Result<(), InventoryItemError>)
        ensures
            old(self).is_archived() ==> r == Err::<(), InventoryItemError>(
                InventoryItemError::Archived,
            ) && *final(self) == *old(self),
            !old(self).is_archived() ==> r is Ok && *final(self) == (InventoryItem {
                name: name,
                updated_at: now,
                ..*old(self)
            }),
    {
        if self.archived_at.is_some() {
            return Err(InventoryItemError::Archived);
        }
        self.name = name;
        self.updated_at = now;
        Ok(())
    }

    pub fn change_category(&mut self, category_id: Option<CategoryId>, now: i64) -> (r: Result<
        (),
        InventoryItemError,
    >)
        ensures
            old(self).is_archived() ==> r == Err::<(), InventoryItemError>(
                InventoryItemError::Archived,
            ) && *final(self) == *old(self),
            !old(self).is_archived() ==> r is Ok && *final(self) == (InventoryItem {
                category_id: category_id,
                updated_at: now,
                ..*old(self)
            }),
    {
        if self.archived_at.is_some() {
            return Err(InventoryItemError::Archived);
        }
        self.category_id = category_id;
        self.updated_at = now;
        Ok(())
    }

    pub fn set_reorder_threshold(&mut self, reorder_threshold: u32, now: i64) -> (r: Result<
        (),
        InventoryItemError,
    >)
        ensures
            old(self).is_archived() ==> r == Err::<(), InventoryItemError>(
                InventoryItemError::Archived,
            ) && *final(self) == *old(self),
            !old(self).is_archived() ==> r is Ok && *final(self) == (InventoryItem {
                reorder_threshold: reorder_threshold,
                updated_at: now,
                ..*old(self)
            }),
    {
        if self.archived_at.is_some() {
            return Err(InventoryItemError::Archived);
        }
        self.reorder_threshold = reorder_threshold;
        self.updated_at = now;
        Ok(())
    }

    pub fn set_priority(&mut self, priority: InventoryPriority, now: i64) -> (r: Result<
        (),
        InventoryItemError,
    >)
        ensures
            old(self).is_archived() ==> r == Err::<(), InventoryItemError>(
                InventoryItemError::Archived,
            ) && *final(self) == *old(self),
            !old(self).is_archived() ==> r is Ok && *final(self) == (InventoryItem {
                priority: priority,
                updated_at: now,
                ..*old(self)
            }),
    {
        if self.archived_at.is_some() {
            return Err(InventoryItemError::Archived);
        }
        self.priority = priority;
        self.updated_at = now;
        Ok(())
    }

    pub fn id(&self) -> (r: InventoryItemId)
        ensures
            r == self.id,
    {
        self.id
    }
}

/// Restoring an item that was archived gives the active item back, changed only in when
/// it was last updated.
pub proof fn lemma_restore_undoes_archive(item: InventoryItem, archived_at: i64, restored_at: i64)
    requires
        !item.is_archived(),
    ensures
        item.archived_as_of(archived_at).is_archived(),
        item.archived_as_of(archived_at).restored_as_of(restored_at) == (InventoryItem {
            updated_at: restored_at,
            ..item
        }),
{
}

/// What a stock event did to the stock of an item.
#[derive(Debug, Clone, Copy, PartialEq, Eq, Structural)]
pub enum InventoryStockEventKind {
    Increase,
    Decrease,
    SetStock,
}

/// The stored name was none of the known stock event kinds.
#[derive(Debug, Clone, Copy, PartialEq, Eq, Structural)]
pub enum InventoryStockEventKindError {
    Invalid,
}

impl InventoryStockEventKind {
    /// The name under which a kind is stored.
    pub open spec fn name(self) -> Seq<char> {
        match self {
            InventoryStockEventKind::Increase => "increase"@,
            InventoryStockEventKind::Decrease => "decrease"@,
            InventoryStockEventKind::SetStock => "set"@,
        }
    }

    /// The kind stored under `s`, if any.
    pub open spec fn from_name(s: Seq<char>) -> Result<Self, InventoryStockEventKindError> {
        if s == "increase"@ {
            Ok(InventoryStockEventKind::Increase)
        } else if s == "decrease"@ {
            Ok(InventoryStockEventKind::Decrease)
        } else if s == "set"@ {
            Ok(InventoryStockEventKind::SetStock)
        } else {
            Err(InventoryStockEventKindError::Invalid)
        }
    }

    pub fn parse(value: &str) -> (r: Result<Self, InventoryStockEventKindError>)
        ensures
            r == Self::from_name(value@),
    {
        if str_equal(value, "increase") {
            Ok(InventoryStockEventKind::Increase)
        } else if str_equal(value, "decrease") {
            Ok(InventoryStockEventKind::Decrease)
        } else if str_equal(value, "set") {
            Ok(InventoryStockEventKind::SetStock)
        } else {
            Err(InventoryStockEventKindError::Invalid)
        }
    }

    pub fn as_str(&self) -> (r: &'static str)
        ensures
            r@ == self.name(),
    {
        match self {
            InventoryStockEventKind::Increase => "increase",
            InventoryStockEventKind::Decrease => "decrease",
            InventoryStockEventKind::SetStock => "set",
        }
    }
}


/// A stored name that parses is the name of the kind it parses to.
pub proof fn lemma_stock_event_kind_name_of_parsed(stored: Seq<char>)
    ensures
        InventoryStockEventKind::from_name(stored) matches Ok(kind) ==> kind.name() == stored,
{
}
/// Parsing the stored name of a kind gives the kind back.
pub proof fn lemma_stock_event_kind_round_trip(kind: InventoryStockEventKind)
    ensures
        InventoryStockEventKind::from_name(kind.name()) == Ok::<
            InventoryStockEventKind,
            InventoryStockEventKindError,
        >(kind),
{
    reveal_strlit("increase");
    reveal_strlit("decrease");
    reveal_strlit("set");
    assert("increase"@[0] != "decrease"@[0]);
    assert("increase"@.len() != "set"@.len());
    assert("decrease"@.len() != "set"@.len());
}


impl core::str::FromStr for InventoryStockEventKind {
    type Err = InventoryStockEventKindError;

    fn from_str(s: &str) -> (r: Result<Self, Self::Err>)
        ensures
            r == Self::from_name(s@),
    {
        Self::parse(s)
    }
}

/// Where a stock change came from.
#[derive(Debug, Clone, Copy, PartialEq, Eq, Structural)]
pub enum InventoryStockEventSource {
    Manual,
    Qr,
    Barcode,
    System,
}

/// The stored name was none of the known stock event sources.
#[derive(Debug, Clone, Copy, PartialEq, Eq, Structural)]
pub enum InventoryStockEventSourceError {
    Invalid,
}

impl InventoryStockEventSource {
    /// The name under which a source is stored.
    pub open spec fn name(self) -> Seq<char> {
        match self {
            InventoryStockEventSource::Manual => "manual"@,
            InventoryStockEventSource::Qr => "qr"@,
            InventoryStockEventSource::Barcode => "barcode"@,
            InventoryStockEventSource::System => "system"@,
        }
    }

    /// The source stored under `s`, if any.
    pub open spec fn from_name(s: Seq<char>) -> Result<Self, InventoryStockEventSourceError> {
        if s == "manual"@ {
            Ok(InventoryStockEventSource::Manual)
        } else if s == "qr"@ {
            Ok(InventoryStockEventSource::Qr)
        } else if s == "barcode"@ {
            Ok(InventoryStockEventSource::Barcode)
        } else if s == "system"@ {
            Ok(InventoryStockEventSource::System)
        } else {
            Err(InventoryStockEventSourceError::Invalid)
        }
    }

    pub fn parse(value: &str) -> (r: Result<Self, InventoryStockEventSourceError>)
        ensures
            r == Self::from_name(value@),
    {
        if str_equal(value, "manual") {
            Ok(InventoryStockEventSource::Manual)
        } else if str_equal(value, "qr") {
            Ok(InventoryStockEventSource::Qr)
        } else if str_equal(value, "barcode") {
            Ok(InventoryStockEventSource::Barcode)
        } else if str_equal(value, "system") {
            Ok(InventoryStockEventSource::System)
        } else {
            Err(InventoryStockEventSourceError::Invalid)
        }
    }

    pub fn as_str(&self) -> (r: &'static str)
        ensures
            r@ == self.name(),
    {
        match self {
            InventoryStockEventSource::Manual => "manual",
            InventoryStockEventSource::Qr => "qr",
            InventoryStockEventSource::Barcode => "barcode",
            InventoryStockEventSource::System => "system",
        }
    }
}

impl core::str::FromStr for InventoryStockEventSource {
    type Err = InventoryStockEventSourceError;

    fn from_str(s: &str) -> (r: Result<Self, Self::Err>)
        ensures
            r == Self::from_name(s@),
    {
        Self::parse(s)
    }
}


/// A stored name that parses is the name of the source it parses to.
pub proof fn lemma_stock_event_source_name_of_parsed(stored: Seq<char>)
    ensures
        InventoryStockEventSource::from_name(stored) matches Ok(source) ==> source.name() == stored,
{
}
/// Parsing the stored name of a source gives the source back.
pub proof fn lemma_stock_event_source_round_trip(source: InventoryStockEventSource)
    ensures
        InventoryStockEventSource::from_name(source.name()) == Ok::<
            InventoryStockEventSource,
            InventoryStockEventSourceError,
        >(source),
{
    reveal_strlit("manual");
    reveal_strlit("qr");
    reveal_strlit("barcode");
    reveal_strlit("system");
    assert("manual"@.len() != "qr"@.len());
    assert("manual"@[0] != "barcode"@[0]);
    assert("manual"@[0] != "system"@[0]);
    assert("qr"@.len() != "barcode"@.len());
    assert("qr"@.len() != "system"@.len());
    assert("barcode"@.len() != "system"@.len());
}

/// Identifier of a stock event.
#[derive(Debug, Clone, Copy, PartialEq, Eq, Hash)]
pub struct InventoryStockEventId {
    pub uuid: uuid::Uuid,
}

impl InventoryStockEventId {
    /// A fresh random identifier.
    pub fn new() -> (r: Self) {
        InventoryStockEventId { uuid: random_uuid() }
    }

    pub fn from_uuid(id: uuid::Uuid) -> (r: Self)
        ensures
            r.uuid == id,
    {
        InventoryStockEventId { uuid: id }
    }

    pub fn as_uuid(&self) -> (r: &uuid::Uuid)
        ensures
            *r == self.uuid,
    {
        &self.uuid
    }

    pub fn into_uuid(self) -> (r: uuid::Uuid)
        ensures
            r == self.uuid,
    {
        self.uuid
    }
}

impl core::default::Default for InventoryStockEventId {
    fn default() -> (r: Self) {
        Self::new()
    }
}

/// A recorded change of an item's stock.
pub struct InventoryStockEvent {
    pub id: InventoryStockEventId,
    pub sequence_number: i64,
    pub household_id: HouseholdId,
    pub item_id: InventoryItemId,
    pub actor_user_id: Option<UserId>,
    pub actor_device_used: Option<DeviceId>,
    pub kind: InventoryStockEventKind,
    pub source: InventoryStockEventSource,
    pub stock_before: u32,
    pub stock_after: u32,
    pub created_at: i64,
}

} // verus!
