use vstd::prelude::*;

use crate::accounts::UserId;
use crate::households::application::pending_events::PendingHouseholdEvents;
use crate::households::domain::{HouseholdEvent, HouseholdId};
use crate::households::ports::HouseholdAccessError;
use crate::inventory::domain::{InventoryItem, InventoryItemError, InventoryItemId};
use crate::inventory::ports::InventoryItemRepositoryError;
use crate::shared::{InternalError, current_timestamp};

verus! {

pub struct RestoreInventoryItemCommand {
    pub requester_id: UserId,
    pub household_id: HouseholdId,
    pub item_id: InventoryItemId,
}

#[derive(Debug, Clone, Copy, PartialEq, Eq, Structural)]
pub enum RestoreInventoryItemError {
    ItemAlreadyExists,
    ItemNotFound,
    NotArchived,
    HouseholdAccess(HouseholdAccessError),
    Internal(InternalError),
}

/// The events that follow a change of a household's items, in the order they are
/// published: the shopping list, the items.
pub open spec fn item_change_events() -> Seq<HouseholdEvent> {
    seq![HouseholdEvent::ShoppingListChanged, HouseholdEvent::InventoryItemsChanged]
}

/// Brings an archived item back, for a member of its household.
///
/// Stages: the command waits for the access policy's member check (`on_access`), then for
/// the item (`on_item`), then for the restored item to be stored (`on_updated`); last the
/// shopping list and item changes are published.
pub struct RestoreInventoryItemService<A, I, P> {
    pub household_access_policy: A,
    pub inventory_item_repository: I,
    pub household_events_publisher: P,
}

impl<A, I, P> RestoreInventoryItemService<A, I, P> {
    pub fn new(household_access_policy: A, inventory_item_repository: I, household_events_publisher: P) -> (r:
        Self)
        ensures
            r.household_access_policy == household_access_policy,
            r.inventory_item_repository == inventory_item_repository,
            r.household_events_publisher == household_events_publisher,
    {
        RestoreInventoryItemService { household_access_policy, inventory_item_repository, household_events_publisher }
    }
}

impl RestoreInventoryItemCommand {
    /// The requester must be a member; next, the item is loaded.
    pub fn on_access<M>(self, reply: Result<M, HouseholdAccessError>) -> (r: Result<
        RestoreItemAwaitingItem,
        RestoreInventoryItemError,
    >)
        ensures
            reply matches Err(e) ==> r == Err::<RestoreItemAwaitingItem, RestoreInventoryItemError>(
                RestoreInventoryItemError::HouseholdAccess(e),
            ),
            reply is Ok ==> r == Ok::<RestoreItemAwaitingItem, RestoreInventoryItemError>(
                RestoreItemAwaitingItem { household_id: self.household_id, item_id: self.item_id },
            ),
    {
        match reply {
            Err(e) => Err(RestoreInventoryItemError::HouseholdAccess(e)),
            Ok(_) => Ok(RestoreItemAwaitingItem { household_id: self.household_id, item_id: self.item_id }),
        }
    }
}

/// Waiting for the item `item_id` of `household_id`.
#[derive(Debug, Clone, Copy, PartialEq, Eq, Structural)]
pub struct RestoreItemAwaitingItem {
    pub household_id: HouseholdId,
    pub item_id: InventoryItemId,
}

impl RestoreItemAwaitingItem {
    /// The item must exist and be archived; next, the item restored at `now` is stored.
    pub fn on_item_at(self, reply: Result<Option<InventoryItem>, InventoryItemRepositoryError>, now: i64) -> (r:
        Result<RestoreItemAwaitingUpdate, RestoreInventoryItemError>)
        ensures
            reply is Err ==> r == Err::<RestoreItemAwaitingUpdate, RestoreInventoryItemError>(
                RestoreInventoryItemError::Internal(InternalError::Failed),
            ),
            reply == Ok::<Option<InventoryItem>, InventoryItemRepositoryError>(None) ==> r == Err::<
                RestoreItemAwaitingUpdate,
                RestoreInventoryItemError,
            >(RestoreInventoryItemError::ItemNotFound),
            reply matches Ok(Some(item)) ==> (!item.is_archived() ==> r == Err::<
                RestoreItemAwaitingUpdate,
                RestoreInventoryItemError,
            >(RestoreInventoryItemError::NotArchived)),
            reply matches Ok(Some(item)) ==> (item.is_archived() ==> r == Ok::<
                RestoreItemAwaitingUpdate,
                RestoreInventoryItemError,
            >(
                RestoreItemAwaitingUpdate {
                    household_id: self.household_id,
                    item: InventoryItem { archived_at: None, updated_at: now, ..item },
                },
            )),
    {
        match reply {
            Err(_) => Err(RestoreInventoryItemError::Internal(InternalError::Failed)),
            Ok(None) => Err(RestoreInventoryItemError::ItemNotFound),
            Ok(Some(item)) => {
                let mut item = item;
                match item.restore(now) {
                    Err(InventoryItemError::NotArchived) => Err(RestoreInventoryItemError::NotArchived),
                    Err(_) => Err(RestoreInventoryItemError::Internal(InternalError::Failed)),
                    Ok(()) => Ok(RestoreItemAwaitingUpdate { household_id: self.household_id, item }),
                }
            },
        }
    }

    /// `on_item_at`, with the restoring stamped by the clock.
    pub fn on_item(self, reply: Result<Option<InventoryItem>, InventoryItemRepositoryError>) -> (r:
        Result<RestoreItemAwaitingUpdate, RestoreInventoryItemError>)
        ensures
            reply is Err ==> r == Err::<RestoreItemAwaitingUpdate, RestoreInventoryItemError>(
                RestoreInventoryItemError::Internal(InternalError::Failed),
            ),
            reply == Ok::<Option<InventoryItem>, InventoryItemRepositoryError>(None) ==> r == Err::<
                RestoreItemAwaitingUpdate,
                RestoreInventoryItemError,
            >(RestoreInventoryItemError::ItemNotFound),
            reply matches Ok(Some(item)) ==> (!item.is_archived() ==> r == Err::<
                RestoreItemAwaitingUpdate,
                RestoreInventoryItemError,
            >(RestoreInventoryItemError::NotArchived)),
            reply matches Ok(Some(item)) ==> (item.is_archived() ==> (r matches Ok(next)
                && next.household_id == self.household_id && next.item == InventoryItem {
                archived_at: None,
                updated_at: next.item.updated_at,
                ..item
            })),
    {
        let now = current_timestamp();
        self.on_item_at(reply, now)
    }
}

/// Waiting for the item store to store the restored `item`.
pub struct RestoreItemAwaitingUpdate {
    pub household_id: HouseholdId,
    pub item: InventoryItem,
}

impl RestoreItemAwaitingUpdate {
    /// A vanished item, or an active item that already has the name, is reported as such;
    /// next, the changes are published.
    pub fn on_updated(self, reply: Result<(), InventoryItemRepositoryError>) -> (r: Result<
        PendingHouseholdEvents,
        RestoreInventoryItemError,
    >)
        ensures
            reply == Err::<(), InventoryItemRepositoryError>(InventoryItemRepositoryError::ItemNotFound)
                ==> r == Err::<PendingHouseholdEvents, RestoreInventoryItemError>(
                RestoreInventoryItemError::ItemNotFound,
            ),
            reply == Err::<(), InventoryItemRepositoryError>(
                InventoryItemRepositoryError::ItemAlreadyExists,
            ) ==> r == Err::<PendingHouseholdEvents, RestoreInventoryItemError>(
                RestoreInventoryItemError::ItemAlreadyExists,
            ),
            reply matches Err(e) ==> (e != InventoryItemRepositoryError::ItemNotFound && e
                != InventoryItemRepositoryError::ItemAlreadyExists ==> r == Err::<
                PendingHouseholdEvents,
                RestoreInventoryItemError,
            >(RestoreInventoryItemError::Internal(InternalError::Failed))),
            reply is Ok ==> (r matches Ok(p) && p.household_id == self.household_id && p.events@
                == item_change_events()),
    {
        match reply {
            Err(InventoryItemRepositoryError::ItemNotFound) => Err(RestoreInventoryItemError::ItemNotFound),
            Err(InventoryItemRepositoryError::ItemAlreadyExists) => Err(
                RestoreInventoryItemError::ItemAlreadyExists,
            ),
            Err(_) => Err(RestoreInventoryItemError::Internal(InternalError::Failed)),
            Ok(()) => Ok(
                PendingHouseholdEvents {
                    household_id: self.household_id,
                    events: vec![HouseholdEvent::ShoppingListChanged, HouseholdEvent::InventoryItemsChanged],
                },
            ),
        }
    }
}

} // verus!
