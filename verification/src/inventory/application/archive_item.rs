use vstd::prelude::*;

use crate::accounts::UserId;
use crate::households::domain::HouseholdId;
use crate::households::ports::HouseholdAccessError;
use crate::inventory::domain::{InventoryItem, InventoryItemError, InventoryItemId};
use crate::inventory::ports::InventoryItemRepositoryError;
use crate::shared::{InternalError, current_timestamp};

verus! {

pub struct ArchiveInventoryItemCommand {
    pub requester_id: UserId,
    pub household_id: HouseholdId,
    pub item_id: InventoryItemId,
}

#[derive(Debug, Clone, Copy, PartialEq, Eq, Structural)]
pub enum ArchiveInventoryItemError {
    ItemNotFound,
    AlreadyArchived,
    HouseholdAccess(HouseholdAccessError),
    Internal(InternalError),
}

/// Archives an item of a household, for one of its members.
///
/// Stages: the command waits for the access policy's member check (`on_access`), then for
/// the item (`on_item`), then for the archived item to be stored (`on_updated`).
pub struct ArchiveInventoryItemService<A, I> {
    pub household_access_policy: A,
    pub inventory_item_repository: I,
}

impl<A, I> ArchiveInventoryItemService<A, I> {
    pub fn new(household_access_policy: A, inventory_item_repository: I) -> (r: Self)
        ensures
            r.household_access_policy == household_access_policy,
            r.inventory_item_repository == inventory_item_repository,
    {
        ArchiveInventoryItemService { household_access_policy, inventory_item_repository }
    }
}

impl ArchiveInventoryItemCommand {
    /// The requester must be a member; next, the item is loaded.
    pub fn on_access<M>(self, reply: Result<M, HouseholdAccessError>) -> (r: Result<
        ArchiveItemAwaitingItem,
        ArchiveInventoryItemError,
    >)
        ensures
            reply matches Err(e) ==> r == Err::<ArchiveItemAwaitingItem, ArchiveInventoryItemError>(
                ArchiveInventoryItemError::HouseholdAccess(e),
            ),
            reply is Ok ==> r == Ok::<ArchiveItemAwaitingItem, ArchiveInventoryItemError>(
                ArchiveItemAwaitingItem { household_id: self.household_id, item_id: self.item_id },
            ),
    {
        match reply {
            Err(e) => Err(ArchiveInventoryItemError::HouseholdAccess(e)),
            Ok(_) => Ok(ArchiveItemAwaitingItem { household_id: self.household_id, item_id: self.item_id }),
        }
    }
}

/// Waiting for the item `item_id` of `household_id`.
#[derive(Debug, Clone, Copy, PartialEq, Eq, Structural)]
pub struct ArchiveItemAwaitingItem {
    pub household_id: HouseholdId,
    pub item_id: InventoryItemId,
}

impl ArchiveItemAwaitingItem {
    /// The item must exist and be active; next, the item archived at `now` is stored.
    pub fn on_item_at(self, reply: Result<Option<InventoryItem>, InventoryItemRepositoryError>, now: i64) -> (r:
        Result<ArchiveItemAwaitingUpdate, ArchiveInventoryItemError>)
        ensures
            reply is Err ==> r == Err::<ArchiveItemAwaitingUpdate, ArchiveInventoryItemError>(
                ArchiveInventoryItemError::Internal(InternalError::Failed),
            ),
            reply == Ok::<Option<InventoryItem>, InventoryItemRepositoryError>(None) ==> r == Err::<
                ArchiveItemAwaitingUpdate,
                ArchiveInventoryItemError,
            >(ArchiveInventoryItemError::ItemNotFound),
            reply matches Ok(Some(item)) ==> (item.is_archived() ==> r == Err::<
                ArchiveItemAwaitingUpdate,
                ArchiveInventoryItemError,
            >(ArchiveInventoryItemError::AlreadyArchived)),
            reply matches Ok(Some(item)) ==> (!item.is_archived() ==> r == Ok::<
                ArchiveItemAwaitingUpdate,
                ArchiveInventoryItemError,
            >(
                ArchiveItemAwaitingUpdate {
                    household_id: self.household_id,
                    item: InventoryItem { archived_at: Some(now), updated_at: now, ..item },
                },
            )),
    {
        match reply {
            Err(_) => Err(ArchiveInventoryItemError::Internal(InternalError::Failed)),
            Ok(None) => Err(ArchiveInventoryItemError::ItemNotFound),
            Ok(Some(item)) => {
                let mut item = item;
                match item.archive(now) {
                    Err(InventoryItemError::AlreadyArchived) => Err(
                        ArchiveInventoryItemError::AlreadyArchived,
                    ),
                    Err(_) => Err(ArchiveInventoryItemError::Internal(InternalError::Failed)),
                    Ok(()) => Ok(ArchiveItemAwaitingUpdate { household_id: self.household_id, item }),
                }
            },
        }
    }

    /// `on_item_at`, with the archiving stamped by the clock.
    pub fn on_item(self, reply: Result<Option<InventoryItem>, InventoryItemRepositoryError>) -> (r:
        Result<ArchiveItemAwaitingUpdate, ArchiveInventoryItemError>)
        ensures
            reply is Err ==> r == Err::<ArchiveItemAwaitingUpdate, ArchiveInventoryItemError>(
                ArchiveInventoryItemError::Internal(InternalError::Failed),
            ),
            reply == Ok::<Option<InventoryItem>, InventoryItemRepositoryError>(None) ==> r == Err::<
                ArchiveItemAwaitingUpdate,
                ArchiveInventoryItemError,
            >(ArchiveInventoryItemError::ItemNotFound),
            reply matches Ok(Some(item)) ==> (item.is_archived() ==> r == Err::<
                ArchiveItemAwaitingUpdate,
                ArchiveInventoryItemError,
            >(ArchiveInventoryItemError::AlreadyArchived)),
            reply matches Ok(Some(item)) ==> (!item.is_archived() ==> (r matches Ok(next)
                && next.household_id == self.household_id && next.item.is_archived()
                && next.item == InventoryItem {
                archived_at: next.item.archived_at,
                updated_at: next.item.updated_at,
                ..item
            })),
    {
        let now = current_timestamp();
        self.on_item_at(reply, now)
    }
}

/// Waiting for the item store to store the archived `item`.
pub struct ArchiveItemAwaitingUpdate {
    pub household_id: HouseholdId,
    pub item: InventoryItem,
}

impl ArchiveItemAwaitingUpdate {
    /// An item that vanished meanwhile is reported as not found.
    pub fn on_updated(self, reply: Result<(), InventoryItemRepositoryError>) -> (r: Result<
        (),
        ArchiveInventoryItemError,
    >)
        ensures
            reply == Err::<(), InventoryItemRepositoryError>(InventoryItemRepositoryError::ItemNotFound)
                ==> r == Err::<(), ArchiveInventoryItemError>(ArchiveInventoryItemError::ItemNotFound),
            reply matches Err(e) ==> (e != InventoryItemRepositoryError::ItemNotFound ==> r
                == Err::<(), ArchiveInventoryItemError>(
                ArchiveInventoryItemError::Internal(InternalError::Failed),
            )),
            reply is Ok ==> r is Ok,
    {
        match reply {
            Err(InventoryItemRepositoryError::ItemNotFound) => Err(
                ArchiveInventoryItemError::ItemNotFound,
            ),
            Err(_) => Err(ArchiveInventoryItemError::Internal(InternalError::Failed)),
            Ok(()) => Ok(()),
        }
    }
}

} // verus!
