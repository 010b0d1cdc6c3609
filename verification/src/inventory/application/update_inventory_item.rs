use vstd::prelude::*;

use crate::accounts::UserId;
use crate::households::domain::HouseholdId;
use crate::households::ports::HouseholdAccessError;
use crate::inventory::domain::{
    CategoryId, InventoryItem, InventoryItemError, InventoryItemId, InventoryItemName,
    InventoryPriority,
};
use crate::inventory::ports::InventoryItemRepositoryError;
use crate::shared::{InternalError, current_timestamp, is_blank_text};

verus! {

/// Changes to an item's details; a field left `None` stays as it is. `category_id` is
/// `Some(None)` to take the item out of its category.
pub struct UpdateInventoryItemCommand {
    pub requester_id: UserId,
    pub household_id: HouseholdId,
    pub item_id: InventoryItemId,
    pub name: Option<String>,
    pub category_id: Option<Option<CategoryId>>,
    pub reorder_threshold: Option<u32>,
    pub priority: Option<String>,
}

#[derive(Debug, Clone, Copy, PartialEq, Eq, Structural)]
pub enum UpdateInventoryItemError {
    NoChanges,
    InvalidName,
    InvalidPriority,
    ItemNotFound,
    CategoryNotFound,
    ItemAlreadyExists,
    ItemArchived,
    HouseholdAccess(HouseholdAccessError),
    Internal(InternalError),
}

/// Reports a refusal of the item itself: only the refusal to change an archived item is
/// expected here, any other is internal.
pub fn map_inventory_item_error(error: InventoryItemError) -> (r: UpdateInventoryItemError)
    ensures
        error == InventoryItemError::Archived ==> r == UpdateInventoryItemError::ItemArchived,
        error != InventoryItemError::Archived ==> r == UpdateInventoryItemError::Internal(
            InternalError::Failed,
        ),
{
    match error {
        InventoryItemError::Archived => UpdateInventoryItemError::ItemArchived,
        _ => UpdateInventoryItemError::Internal(InternalError::Failed),
    }
}

/// The checked changes to apply to an item.
pub struct ItemChanges {
    pub name: Option<InventoryItemName>,
    pub category_id: Option<Option<CategoryId>>,
    pub reorder_threshold: Option<u32>,
    pub priority: Option<InventoryPriority>,
}

impl ItemChanges {
    pub open spec fn is_empty(self) -> bool {
        self.name is None && self.category_id is None && self.reorder_threshold is None
            && self.priority is None
    }
}

/// The item once the changes are applied at `now`.
pub open spec fn changed_item(item: InventoryItem, changes: ItemChanges, now: i64) -> InventoryItem {
    InventoryItem {
        name: match changes.name {
            Some(n) => n,
            None => item.name,
        },
        category_id: match changes.category_id {
            Some(c) => c,
            None => item.category_id,
        },
        reorder_threshold: match changes.reorder_threshold {
            Some(t) => t,
            None => item.reorder_threshold,
        },
        priority: match changes.priority {
            Some(p) => p,
            None => item.priority,
        },
        updated_at: if changes.is_empty() {
            item.updated_at
        } else {
            now
        },
        ..item
    }
}

/// A change request touches only the fields it mentions: each mentioned field takes the
/// requested value, each field left out keeps the value it had, the item's identity, stock,
/// archival and creation time never change, and the item counts as updated at `now`
/// exactly when something was asked for.
pub proof fn lemma_changes_touch_only_mentioned_fields(
    item: InventoryItem,
    changes: ItemChanges,
    now: i64,
)
    ensures
        ({
            let r = changed_item(item, changes, now);
            &&& (changes.name matches Some(n) ==> r.name == n)
            &&& (changes.name is None ==> r.name == item.name)
            &&& (changes.category_id matches Some(c) ==> r.category_id == c)
            &&& (changes.category_id is None ==> r.category_id == item.category_id)
            &&& (changes.reorder_threshold matches Some(t) ==> r.reorder_threshold == t)
            &&& (changes.reorder_threshold is None ==> r.reorder_threshold
                == item.reorder_threshold)
            &&& (changes.priority matches Some(p) ==> r.priority == p)
            &&& (changes.priority is None ==> r.priority == item.priority)
            &&& r.id == item.id
            &&& r.household_id == item.household_id
            &&& r.current_stock == item.current_stock
            &&& r.archived_at == item.archived_at
            &&& r.created_at == item.created_at
            &&& r.updated_at == (if changes.name is None && changes.category_id is None
                && changes.reorder_threshold is None && changes.priority is None {
                item.updated_at
            } else {
                now
            })
        }),
{
}

/// Applies the changes to an item at `now`; an archived item takes no change.
pub fn apply_item_changes(item: InventoryItem, changes: ItemChanges, now: i64) -> (r: Result<
    InventoryItem,
    UpdateInventoryItemError,
>)
    ensures
        item.is_archived() && !changes.is_empty() ==> r == Err::<InventoryItem, UpdateInventoryItemError>(
            UpdateInventoryItemError::ItemArchived,
        ),
        !(item.is_archived() && !changes.is_empty()) ==> r == Ok::<
            InventoryItem,
            UpdateInventoryItemError,
        >(changed_item(item, changes, now)),
{
    let mut item = item;
    if let Some(name) = changes.name {
        match item.rename(name, now) {
            Err(e) => {
                return Err(map_inventory_item_error(e));
            },
            Ok(()) => {},
        }
    }
    if let Some(category_id) = changes.category_id {
        match item.change_category(category_id, now) {
            Err(e) => {
                return Err(map_inventory_item_error(e));
            },
            Ok(()) => {},
        }
    }
    if let Some(reorder_threshold) = changes.reorder_threshold {
        match item.set_reorder_threshold(reorder_threshold, now) {
            Err(e) => {
                return Err(map_inventory_item_error(e));
            },
            Ok(()) => {},
        }
    }
    if let Some(priority) = changes.priority {
        match item.set_priority(priority, now) {
            Err(e) => {
                return Err(map_inventory_item_error(e));
            },
            Ok(()) => {},
        }
    }
    Ok(item)
}

/// A requested name is not blank.
pub open spec fn requested_name_valid(name: Option<String>) -> bool {
    name matches Some(n) ==> !is_blank_text(n@)
}

/// A requested priority is a known one.
pub open spec fn requested_priority_valid(priority: Option<String>) -> bool {
    priority matches Some(p) ==> InventoryPriority::from_name(p@) is Ok
}

/// `changes` are the requested changes, checked.
pub open spec fn changes_requested(
    changes: ItemChanges,
    name: Option<String>,
    category_id: Option<Option<CategoryId>>,
    reorder_threshold: Option<u32>,
    priority: Option<String>,
) -> bool {
    &&& match name {
        Some(n) => changes.name matches Some(checked) && checked.value@ == n@,
        None => changes.name is None,
    }
    &&& changes.category_id == category_id
    &&& changes.reorder_threshold == reorder_threshold
    &&& match priority {
        Some(p) => changes.priority == Some(InventoryPriority::from_name(p@)->Ok_0),
        None => changes.priority is None,
    }
}

/// Changes an item's details, for a member of its household.
///
/// Stages: `begin` refuses a request without changes; the access policy's member check
/// follows (`on_access`), then the item is loaded (`on_item`), where the new name and
/// priority are checked; a new category is then looked up (`on_category`); then the changed
/// item is stored (`on_updated`).
pub struct UpdateInventoryItemService<A, C, I> {
    pub household_access_policy: A,
    pub category_repository: C,
    pub inventory_item_repository: I,
}

impl<A, C, I> UpdateInventoryItemService<A, C, I> {
    pub fn new(household_access_policy: A, category_repository: C, inventory_item_repository: I) -> (r:
        Self)
        ensures
            r.household_access_policy == household_access_policy,
            r.category_repository == category_repository,
            r.inventory_item_repository == inventory_item_repository,
    {
        UpdateInventoryItemService { household_access_policy, category_repository, inventory_item_repository }
    }

    /// A request must change something; next, the requester's access is checked.
    pub fn begin(&self, command: UpdateInventoryItemCommand) -> (r: Result<
        UpdateInventoryItemCommand,
        UpdateInventoryItemError,
    >)
        ensures
            command.name is None && command.category_id is None && command.reorder_threshold is None
                && command.priority is None ==> r == Err::<
                UpdateInventoryItemCommand,
                UpdateInventoryItemError,
            >(UpdateInventoryItemError::NoChanges),
            !(command.name is None && command.category_id is None && command.reorder_threshold
                is None && command.priority is None) ==> r == Ok::<
                UpdateInventoryItemCommand,
                UpdateInventoryItemError,
            >(command),
    {
        if command.category_id.is_none() && command.name.is_none() && command.reorder_threshold.is_none()
            && command.priority.is_none() {
            return Err(UpdateInventoryItemError::NoChanges);
        }
        Ok(command)
    }
}

impl UpdateInventoryItemCommand {
    /// The requester must be a member; next, the item is loaded.
    pub fn on_access<M>(self, reply: Result<M, HouseholdAccessError>) -> (r: Result<
        UpdateItemAwaitingItem,
        UpdateInventoryItemError,
    >)
        ensures
            reply matches Err(e) ==> r == Err::<UpdateItemAwaitingItem, UpdateInventoryItemError>(
                UpdateInventoryItemError::HouseholdAccess(e),
            ),
            reply is Ok ==> r == Ok::<UpdateItemAwaitingItem, UpdateInventoryItemError>(
                UpdateItemAwaitingItem {
                    household_id: self.household_id,
                    item_id: self.item_id,
                    name: self.name,
                    category_id: self.category_id,
                    reorder_threshold: self.reorder_threshold,
                    priority: self.priority,
                },
            ),
    {
        match reply {
            Err(e) => Err(UpdateInventoryItemError::HouseholdAccess(e)),
            Ok(_) => Ok(
                UpdateItemAwaitingItem {
                    household_id: self.household_id,
                    item_id: self.item_id,
                    name: self.name,
                    category_id: self.category_id,
                    reorder_threshold: self.reorder_threshold,
                    priority: self.priority,
                },
            ),
        }
    }
}

/// Waiting for the item `item_id` of `household_id`, with the changes still unchecked.
pub struct UpdateItemAwaitingItem {
    pub household_id: HouseholdId,
    pub item_id: InventoryItemId,
    pub name: Option<String>,
    pub category_id: Option<Option<CategoryId>>,
    pub reorder_threshold: Option<u32>,
    pub priority: Option<String>,
}

/// What follows the loading of the item: the lookup of the new category, or, with no new
/// category, the storing of the changed item.
pub enum UpdateItemAfterItem {
    CheckCategory(UpdateItemAwaitingCategory),
    Store(UpdateItemAwaitingUpdate),
}

impl UpdateItemAwaitingItem {
    /// The item must exist and the new name and priority must be valid; a new category is
    /// then looked up, or else the item changed at `now` is stored.
    pub fn on_item_at(self, reply: Result<Option<InventoryItem>, InventoryItemRepositoryError>, now: i64) -> (r:
        Result<UpdateItemAfterItem, UpdateInventoryItemError>)
        ensures
            reply is Err ==> r == Err::<UpdateItemAfterItem, UpdateInventoryItemError>(
                UpdateInventoryItemError::Internal(InternalError::Failed),
            ),
            reply == Ok::<Option<InventoryItem>, InventoryItemRepositoryError>(None) ==> r == Err::<
                UpdateItemAfterItem,
                UpdateInventoryItemError,
            >(UpdateInventoryItemError::ItemNotFound),
            reply is Ok && reply->Ok_0 is Some && !requested_name_valid(self.name) ==> r == Err::<
                UpdateItemAfterItem,
                UpdateInventoryItemError,
            >(UpdateInventoryItemError::InvalidName),
            reply is Ok && reply->Ok_0 is Some && requested_name_valid(self.name)
                && !requested_priority_valid(self.priority) ==> r == Err::<
                UpdateItemAfterItem,
                UpdateInventoryItemError,
            >(UpdateInventoryItemError::InvalidPriority),
            reply matches Ok(Some(item)) ==> (requested_name_valid(self.name)
                && requested_priority_valid(self.priority) ==> (self.category_id matches Some(Some(
                c,
            )) ==> (r matches Ok(UpdateItemAfterItem::CheckCategory(next)) && next.household_id
                == self.household_id && next.category_id == c && next.item == item
                && changes_requested(
                next.changes,
                self.name,
                self.category_id,
                self.reorder_threshold,
                self.priority,
            )))),
            reply matches Ok(Some(item)) ==> (requested_name_valid(self.name)
                && requested_priority_valid(self.priority) && !(self.category_id matches Some(
                Some(_),
            )) ==> (exists|changes: ItemChanges|
                changes_requested(
                    changes,
                    self.name,
                    self.category_id,
                    self.reorder_threshold,
                    self.priority,
                ) && (item.is_archived() && !changes.is_empty() ==> r == Err::<
                    UpdateItemAfterItem,
                    UpdateInventoryItemError,
                >(UpdateInventoryItemError::ItemArchived)) && (!(item.is_archived()
                    && !changes.is_empty()) ==> r == Ok::<
                    UpdateItemAfterItem,
                    UpdateInventoryItemError,
                >(
                    UpdateItemAfterItem::Store(
                        UpdateItemAwaitingUpdate {
                            household_id: self.household_id,
                            item: changed_item(item, changes, now),
                        },
                    ),
                )))),
    {
        let item = match reply {
            Err(_) => {
                return Err(UpdateInventoryItemError::Internal(InternalError::Failed));
            },
            Ok(None) => {
                return Err(UpdateInventoryItemError::ItemNotFound);
            },
            Ok(Some(item)) => item,
        };
        let name = match &self.name {
            Some(name) => match InventoryItemName::parse(name.as_str()) {
                Ok(checked) => Some(checked),
                Err(_) => {
                    return Err(UpdateInventoryItemError::InvalidName);
                },
            },
            None => None,
        };
        let priority = match &self.priority {
            Some(priority) => match InventoryPriority::parse(priority.as_str()) {
                Ok(checked) => Some(checked),
                Err(_) => {
                    return Err(UpdateInventoryItemError::InvalidPriority);
                },
            },
            None => None,
        };
        let changes = ItemChanges {
            name,
            category_id: self.category_id,
            reorder_threshold: self.reorder_threshold,
            priority,
        };
        match self.category_id {
            Some(Some(category_id)) => Ok(
                UpdateItemAfterItem::CheckCategory(
                    UpdateItemAwaitingCategory {
                        household_id: self.household_id,
                        category_id,
                        item,
                        changes,
                    },
                ),
            ),
            _ => {
                let ghost requested = changes;
                let result = match apply_item_changes(item, changes, now) {
                    Err(e) => Err(e),
                    Ok(changed) => Ok(
                        UpdateItemAfterItem::Store(
                            UpdateItemAwaitingUpdate { household_id: self.household_id, item: changed },
                        ),
                    ),
                };
                assert(changes_requested(
                    requested,
                    self.name,
                    self.category_id,
                    self.reorder_threshold,
                    self.priority,
                ));
                result
            },
        }
    }

    /// `on_item_at`, with the changes stamped by the clock.
    pub fn on_item(self, reply: Result<Option<InventoryItem>, InventoryItemRepositoryError>) -> (r:
        Result<UpdateItemAfterItem, UpdateInventoryItemError>)
        ensures
            reply is Err ==> r == Err::<UpdateItemAfterItem, UpdateInventoryItemError>(
                UpdateInventoryItemError::Internal(InternalError::Failed),
            ),
            reply == Ok::<Option<InventoryItem>, InventoryItemRepositoryError>(None) ==> r == Err::<
                UpdateItemAfterItem,
                UpdateInventoryItemError,
            >(UpdateInventoryItemError::ItemNotFound),
            reply is Ok && reply->Ok_0 is Some && !requested_name_valid(self.name) ==> r == Err::<
                UpdateItemAfterItem,
                UpdateInventoryItemError,
            >(UpdateInventoryItemError::InvalidName),
            reply is Ok && reply->Ok_0 is Some && requested_name_valid(self.name)
                && !requested_priority_valid(self.priority) ==> r == Err::<
                UpdateItemAfterItem,
                UpdateInventoryItemError,
            >(UpdateInventoryItemError::InvalidPriority),
            reply matches Ok(Some(item)) ==> (requested_name_valid(self.name)
                && requested_priority_valid(self.priority) ==> (self.category_id matches Some(Some(
                c,
            )) ==> (r matches Ok(UpdateItemAfterItem::CheckCategory(next)) && next.household_id
                == self.household_id && next.category_id == c && next.item == item
                && changes_requested(
                next.changes,
                self.name,
                self.category_id,
                self.reorder_threshold,
                self.priority,
            )))),
            reply matches Ok(Some(item)) ==> (requested_name_valid(self.name)
                && requested_priority_valid(self.priority) && !(self.category_id matches Some(
                Some(_),
            )) ==> (exists|changes: ItemChanges|
                changes_requested(
                    changes,
                    self.name,
                    self.category_id,
                    self.reorder_threshold,
                    self.priority,
                ) && (item.is_archived() && !changes.is_empty() ==> r == Err::<
                    UpdateItemAfterItem,
                    UpdateInventoryItemError,
                >(UpdateInventoryItemError::ItemArchived)) && (!(item.is_archived()
                    && !changes.is_empty()) ==> (r matches Ok(UpdateItemAfterItem::Store(next))
                    && next.household_id == self.household_id && next.item == changed_item(
                    item,
                    changes,
                    next.item.updated_at,
                ))))),
    {
        let now = current_timestamp();
        self.on_item_at(reply, now)
    }
}

/// Waiting for the category `category_id` of `household_id`, before `changes` are applied
/// to `item`.
pub struct UpdateItemAwaitingCategory {
    pub household_id: HouseholdId,
    pub category_id: CategoryId,
    pub item: InventoryItem,
    pub changes: ItemChanges,
}

impl UpdateItemAwaitingCategory {
    /// The category must exist in the household; next, the item changed at `now` is stored.
    pub fn on_category_at<T, E>(self, reply: Result<Option<T>, E>, now: i64) -> (r: Result<
        UpdateItemAwaitingUpdate,
        UpdateInventoryItemError,
    >)
        ensures
            reply is Err ==> r == Err::<UpdateItemAwaitingUpdate, UpdateInventoryItemError>(
                UpdateInventoryItemError::Internal(InternalError::Failed),
            ),
            reply == Ok::<Option<T>, E>(None) ==> r == Err::<
                UpdateItemAwaitingUpdate,
                UpdateInventoryItemError,
            >(UpdateInventoryItemError::CategoryNotFound),
            reply matches Ok(Some(_)) ==> (self.item.is_archived() && !self.changes.is_empty() ==> r
                == Err::<UpdateItemAwaitingUpdate, UpdateInventoryItemError>(
                UpdateInventoryItemError::ItemArchived,
            )),
            reply matches Ok(Some(_)) ==> (!(self.item.is_archived() && !self.changes.is_empty())
                ==> r == Ok::<UpdateItemAwaitingUpdate, UpdateInventoryItemError>(
                UpdateItemAwaitingUpdate {
                    household_id: self.household_id,
                    item: changed_item(self.item, self.changes, now),
                },
            )),
    {
        match reply {
            Err(_) => Err(UpdateInventoryItemError::Internal(InternalError::Failed)),
            Ok(None) => Err(UpdateInventoryItemError::CategoryNotFound),
            Ok(Some(_)) => match apply_item_changes(self.item, self.changes, now) {
                Err(e) => Err(e),
                Ok(item) => Ok(UpdateItemAwaitingUpdate { household_id: self.household_id, item }),
            },
        }
    }

    /// `on_category_at`, with the changes stamped by the clock.
    pub fn on_category<T, E>(self, reply: Result<Option<T>, E>) -> (r: Result<
        UpdateItemAwaitingUpdate,
        UpdateInventoryItemError,
    >)
        ensures
            reply is Err ==> r == Err::<UpdateItemAwaitingUpdate, UpdateInventoryItemError>(
                UpdateInventoryItemError::Internal(InternalError::Failed),
            ),
            reply == Ok::<Option<T>, E>(None) ==> r == Err::<
                UpdateItemAwaitingUpdate,
                UpdateInventoryItemError,
            >(UpdateInventoryItemError::CategoryNotFound),
            reply matches Ok(Some(_)) ==> (self.item.is_archived() && !self.changes.is_empty() ==> r
                == Err::<UpdateItemAwaitingUpdate, UpdateInventoryItemError>(
                UpdateInventoryItemError::ItemArchived,
            )),
            reply matches Ok(Some(_)) ==> (!(self.item.is_archived() && !self.changes.is_empty())
                ==> (r matches Ok(next) && next.household_id == self.household_id && next.item
                == changed_item(self.item, self.changes, next.item.updated_at))),
    {
        let now = current_timestamp();
        self.on_category_at(reply, now)
    }
}

/// Waiting for the item store to store the changed `item`.
pub struct UpdateItemAwaitingUpdate {
    pub household_id: HouseholdId,
    pub item: InventoryItem,
}

impl UpdateItemAwaitingUpdate {
    /// A vanished item, a taken name or a vanished category is reported as such.
    pub fn on_updated(self, reply: Result<(), InventoryItemRepositoryError>) -> (r: Result<
        (),
        UpdateInventoryItemError,
    >)
        ensures
            reply == Err::<(), InventoryItemRepositoryError>(InventoryItemRepositoryError::ItemNotFound)
                ==> r == Err::<(), UpdateInventoryItemError>(UpdateInventoryItemError::ItemNotFound),
            reply == Err::<(), InventoryItemRepositoryError>(
                InventoryItemRepositoryError::ItemAlreadyExists,
            ) ==> r == Err::<(), UpdateInventoryItemError>(UpdateInventoryItemError::ItemAlreadyExists),
            reply == Err::<(), InventoryItemRepositoryError>(
                InventoryItemRepositoryError::CategoryNotFound,
            ) ==> r == Err::<(), UpdateInventoryItemError>(UpdateInventoryItemError::CategoryNotFound),
            reply matches Err(e) ==> (e matches InventoryItemRepositoryError::Persistence(_) ==> r
                == Err::<(), UpdateInventoryItemError>(
                UpdateInventoryItemError::Internal(InternalError::Failed),
            )),
            reply is Ok ==> r is Ok,
    {
        match reply {
            Err(InventoryItemRepositoryError::ItemNotFound) => Err(UpdateInventoryItemError::ItemNotFound),
            Err(InventoryItemRepositoryError::ItemAlreadyExists) => Err(
                UpdateInventoryItemError::ItemAlreadyExists,
            ),
            Err(InventoryItemRepositoryError::CategoryNotFound) => Err(
                UpdateInventoryItemError::CategoryNotFound,
            ),
            Err(_) => Err(UpdateInventoryItemError::Internal(InternalError::Failed)),
            Ok(()) => Ok(()),
        }
    }
}

} // verus!
