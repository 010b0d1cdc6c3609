use vstd::prelude::*;

use crate::accounts::UserId;
use crate::households::application::pending_events::PendingHouseholdEvents;
use crate::households::domain::{HouseholdEvent, HouseholdId};
use crate::households::ports::HouseholdAccessError;
use crate::inventory::application::restore_item::item_change_events;
use crate::inventory::domain::{
    CategoryId, InventoryItem, InventoryItemId, InventoryItemName, InventoryPriority,
};
use crate::inventory::ports::InventoryItemRepositoryError;
use crate::shared::{InternalError, current_timestamp, is_blank_text};

verus! {

pub struct CreateInventoryItemCommand {
    pub requester_id: UserId,
    pub household_id: HouseholdId,
    pub category_id: Option<CategoryId>,
    pub name: String,
    pub current_stock: u32,
    pub reorder_threshold: u32,
    pub priority: Option<InventoryPriority>,
}

#[derive(Debug, Clone, Copy, PartialEq, Eq, Structural)]
pub enum CreateInventoryItemError {
    InvalidName,
    CategoryNotFound,
    ItemAlreadyExists,
    HouseholdAccess(HouseholdAccessError),
    Internal(InternalError),
}

/// Creates an inventory item in a household, for one of its members.
///
/// Stages: `begin` checks the name; the access policy's member check follows (`on_access`);
/// a named category is then looked up (`on_category`); then an active item of the same name
/// (`on_existing`); then the new item is inserted (`on_inserted`); last the shopping list and
/// item changes are published, and the new item's id is the answer.
pub struct CreateInventoryItemService<A, C, I, P> {
    pub household_access_policy: A,
    pub category_repository: C,
    pub inventory_item_repository: I,
    pub household_events_publisher: P,
}

/// What an item is created from, once its name is checked.
pub struct NewInventoryItem {
    pub household_id: HouseholdId,
    pub category_id: Option<CategoryId>,
    pub name: InventoryItemName,
    pub current_stock: u32,
    pub reorder_threshold: u32,
    pub priority: Option<InventoryPriority>,
}

impl<A, C, I, P> CreateInventoryItemService<A, C, I, P> {
    pub fn new(
        household_access_policy: A,
        category_repository: C,
        inventory_item_repository: I,
        household_events_publisher: P,
    ) -> (r: Self)
        ensures
            r.household_access_policy == household_access_policy,
            r.category_repository == category_repository,
            r.inventory_item_repository == inventory_item_repository,
            r.household_events_publisher == household_events_publisher,
    {
        CreateInventoryItemService {
            household_access_policy,
            category_repository,
            inventory_item_repository,
            household_events_publisher,
        }
    }

    /// Checks the name; next, the requester's access is checked.
    pub fn begin(&self, command: CreateInventoryItemCommand) -> (r: Result<
        CreateItemAwaitingAccess,
        CreateInventoryItemError,
    >)
        ensures
            is_blank_text(command.name@) ==> r == Err::<CreateItemAwaitingAccess, CreateInventoryItemError>(
                CreateInventoryItemError::InvalidName,
            ),
            !is_blank_text(command.name@) ==> (r matches Ok(next) && next.requester_id
                == command.requester_id && next.item.household_id == command.household_id
                && next.item.category_id == command.category_id && next.item.name.value@
                == command.name@ && next.item.current_stock == command.current_stock
                && next.item.reorder_threshold == command.reorder_threshold && next.item.priority
                == command.priority),
    {
        match InventoryItemName::parse(command.name.as_str()) {
            Err(_) => Err(CreateInventoryItemError::InvalidName),
            Ok(name) => Ok(
                CreateItemAwaitingAccess {
                    requester_id: command.requester_id,
                    item: NewInventoryItem {
                        household_id: command.household_id,
                        category_id: command.category_id,
                        name,
                        current_stock: command.current_stock,
                        reorder_threshold: command.reorder_threshold,
                        priority: command.priority,
                    },
                },
            ),
        }
    }
}

/// Waiting for the access policy to check that `requester_id` is a member of the item's
/// household.
pub struct CreateItemAwaitingAccess {
    pub requester_id: UserId,
    pub item: NewInventoryItem,
}

/// What follows the access check: the lookup of the named category, or, with no category
/// named, the lookup of an item of the same name.
pub enum CreateItemAfterAccess {
    CheckCategory(CreateItemAwaitingCategory),
    CheckName(CreateItemAwaitingExisting),
}

impl CreateItemAwaitingAccess {
    /// The requester must be a member; next, a named category is looked up, or else an item
    /// with the same name.
    pub fn on_access<M>(self, reply: Result<M, HouseholdAccessError>) -> (r: Result<
        CreateItemAfterAccess,
        CreateInventoryItemError,
    >)
        ensures
            reply matches Err(e) ==> r == Err::<CreateItemAfterAccess, CreateInventoryItemError>(
                CreateInventoryItemError::HouseholdAccess(e),
            ),
            reply is Ok ==> (self.item.category_id matches Some(c) ==> r == Ok::<
                CreateItemAfterAccess,
                CreateInventoryItemError,
            >(
                CreateItemAfterAccess::CheckCategory(
                    CreateItemAwaitingCategory { category_id: c, item: self.item },
                ),
            )),
            reply is Ok ==> (self.item.category_id is None ==> r == Ok::<
                CreateItemAfterAccess,
                CreateInventoryItemError,
            >(CreateItemAfterAccess::CheckName(CreateItemAwaitingExisting { item: self.item }))),
    {
        match reply {
            Err(e) => Err(CreateInventoryItemError::HouseholdAccess(e)),
            Ok(_) => match self.item.category_id {
                Some(category_id) => Ok(
                    CreateItemAfterAccess::CheckCategory(
                        CreateItemAwaitingCategory { category_id, item: self.item },
                    ),
                ),
                None => Ok(CreateItemAfterAccess::CheckName(CreateItemAwaitingExisting { item: self.item })),
            },
        }
    }
}

/// Waiting for the category `category_id` of the item's household.
pub struct CreateItemAwaitingCategory {
    pub category_id: CategoryId,
    pub item: NewInventoryItem,
}

impl CreateItemAwaitingCategory {
    /// The category must exist in the household; next, an item with the same name is
    /// looked up.
    pub fn on_category<T, E>(self, reply: Result<Option<T>, E>) -> (r: Result<
        CreateItemAwaitingExisting,
        CreateInventoryItemError,
    >)
        ensures
            reply is Err ==> r == Err::<CreateItemAwaitingExisting, CreateInventoryItemError>(
                CreateInventoryItemError::Internal(InternalError::Failed),
            ),
            reply == Ok::<Option<T>, E>(None) ==> r == Err::<
                CreateItemAwaitingExisting,
                CreateInventoryItemError,
            >(CreateInventoryItemError::CategoryNotFound),
            reply matches Ok(Some(_)) ==> r == Ok::<CreateItemAwaitingExisting, CreateInventoryItemError>(
                CreateItemAwaitingExisting { item: self.item },
            ),
    {
        match reply {
            Err(_) => Err(CreateInventoryItemError::Internal(InternalError::Failed)),
            Ok(None) => Err(CreateInventoryItemError::CategoryNotFound),
            Ok(Some(_)) => Ok(CreateItemAwaitingExisting { item: self.item }),
        }
    }
}

/// Waiting for an active item of the household with the new item's name.
pub struct CreateItemAwaitingExisting {
    pub item: NewInventoryItem,
}

/// The priority an item gets: the one asked for, else the default one.
pub open spec fn priority_or_default(priority: Option<InventoryPriority>) -> InventoryPriority {
    match priority {
        Some(p) => p,
        None => InventoryPriority::Default,
    }
}

impl CreateItemAwaitingExisting {
    /// The name must be free among active items; next, the item with id `id`, created at
    /// `now`, is inserted.
    pub fn on_existing_at<T, E>(self, reply: Result<Option<T>, E>, id: InventoryItemId, now: i64) -> (r:
        Result<CreateItemAwaitingInsert, CreateInventoryItemError>)
        ensures
            reply is Err ==> r == Err::<CreateItemAwaitingInsert, CreateInventoryItemError>(
                CreateInventoryItemError::Internal(InternalError::Failed),
            ),
            reply matches Ok(Some(_)) ==> r == Err::<CreateItemAwaitingInsert, CreateInventoryItemError>(
                CreateInventoryItemError::ItemAlreadyExists,
            ),
            reply == Ok::<Option<T>, E>(None) ==> r == Ok::<
                CreateItemAwaitingInsert,
                CreateInventoryItemError,
            >(
                CreateItemAwaitingInsert {
                    item: InventoryItem {
                        id,
                        household_id: self.item.household_id,
                        category_id: self.item.category_id,
                        name: self.item.name,
                        current_stock: self.item.current_stock,
                        reorder_threshold: self.item.reorder_threshold,
                        priority: priority_or_default(self.item.priority),
                        archived_at: None,
                        created_at: now,
                        updated_at: now,
                    },
                },
            ),
    {
        match reply {
            Err(_) => Err(CreateInventoryItemError::Internal(InternalError::Failed)),
            Ok(Some(_)) => Err(CreateInventoryItemError::ItemAlreadyExists),
            Ok(None) => {
                let priority = match self.item.priority {
                    Some(p) => p,
                    None => InventoryPriority::Default,
                };
                Ok(
                    CreateItemAwaitingInsert {
                        item: InventoryItem::new(
                            id,
                            self.item.household_id,
                            self.item.category_id,
                            self.item.name,
                            self.item.current_stock,
                            self.item.reorder_threshold,
                            priority,
                            now,
                            now,
                        ),
                    },
                )
            },
        }
    }

    /// `on_existing_at`, with a fresh random id and the clock's time.
    pub fn on_existing<T, E>(self, reply: Result<Option<T>, E>) -> (r: Result<
        CreateItemAwaitingInsert,
        CreateInventoryItemError,
    >)
        ensures
            reply is Err ==> r == Err::<CreateItemAwaitingInsert, CreateInventoryItemError>(
                CreateInventoryItemError::Internal(InternalError::Failed),
            ),
            reply matches Ok(Some(_)) ==> r == Err::<CreateItemAwaitingInsert, CreateInventoryItemError>(
                CreateInventoryItemError::ItemAlreadyExists,
            ),
            reply == Ok::<Option<T>, E>(None) ==> (r matches Ok(next) && next.item == InventoryItem {
                id: next.item.id,
                household_id: self.item.household_id,
                category_id: self.item.category_id,
                name: self.item.name,
                current_stock: self.item.current_stock,
                reorder_threshold: self.item.reorder_threshold,
                priority: priority_or_default(self.item.priority),
                archived_at: None,
                created_at: next.item.created_at,
                updated_at: next.item.created_at,
            }),
    {
        let now = current_timestamp();
        let id = InventoryItemId::new();
        self.on_existing_at(reply, id, now)
    }
}

/// Waiting for the item store to insert `item`.
pub struct CreateItemAwaitingInsert {
    pub item: InventoryItem,
}

impl CreateItemAwaitingInsert {
    /// A taken name or a vanished category is reported as such; next, the shopping list and
    /// item changes are published, after which the new item's id is the answer.
    pub fn on_inserted(self, reply: Result<(), InventoryItemRepositoryError>) -> (r: Result<
        (InventoryItemId, PendingHouseholdEvents),
        CreateInventoryItemError,
    >)
        ensures
            reply == Err::<(), InventoryItemRepositoryError>(
                InventoryItemRepositoryError::ItemAlreadyExists,
            ) ==> r == Err::<(InventoryItemId, PendingHouseholdEvents), CreateInventoryItemError>(
                CreateInventoryItemError::ItemAlreadyExists,
            ),
            reply == Err::<(), InventoryItemRepositoryError>(
                InventoryItemRepositoryError::CategoryNotFound,
            ) ==> r == Err::<(InventoryItemId, PendingHouseholdEvents), CreateInventoryItemError>(
                CreateInventoryItemError::CategoryNotFound,
            ),
            reply matches Err(e) ==> (e != InventoryItemRepositoryError::ItemAlreadyExists && e
                != InventoryItemRepositoryError::CategoryNotFound ==> r == Err::<
                (InventoryItemId, PendingHouseholdEvents),
                CreateInventoryItemError,
            >(CreateInventoryItemError::Internal(InternalError::Failed))),
            reply is Ok ==> (r matches Ok((id, p)) && id == self.item.id && p.household_id
                == self.item.household_id && p.events@ == item_change_events()),
    {
        match reply {
            Err(InventoryItemRepositoryError::ItemAlreadyExists) => Err(
                CreateInventoryItemError::ItemAlreadyExists,
            ),
            Err(InventoryItemRepositoryError::CategoryNotFound) => Err(
                CreateInventoryItemError::CategoryNotFound,
            ),
            Err(_) => Err(CreateInventoryItemError::Internal(InternalError::Failed)),
            Ok(()) => Ok(
                (
                    self.item.id,
                    PendingHouseholdEvents {
                        household_id: self.item.household_id,
                        events: vec![
                            HouseholdEvent::ShoppingListChanged,
                            HouseholdEvent::InventoryItemsChanged,
                        ],
                    },
                ),
            ),
        }
    }
}

} // verus!
