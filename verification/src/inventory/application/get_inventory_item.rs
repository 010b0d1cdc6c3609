use vstd::prelude::*;

use crate::accounts::UserId;
use crate::households::domain::HouseholdId;
use crate::households::ports::HouseholdAccessError;
use crate::inventory::domain::InventoryItemId;
use crate::shared::InternalError;

verus! {

pub struct GetInventoryItemCommand {
    pub requester_id: UserId,
    pub household_id: HouseholdId,
    pub item_id: InventoryItemId,
}

#[derive(Debug, Clone, Copy, PartialEq, Eq, Structural)]
pub enum GetInventoryItemError {
    ItemNotFound,
    HouseholdAccess(HouseholdAccessError),
    Internal(InternalError),
}

/// Gives a member the listing of one active item of their household.
///
/// Stages: the command waits for the access policy's member check (`on_access`), then for
/// the item's listing from the item query (`on_item`).
pub struct GetInventoryItemService<A, Q> {
    pub household_access_policy: A,
    pub inventory_item_query: Q,
}

impl<A, Q> GetInventoryItemService<A, Q> {
    pub fn new(household_access_policy: A, inventory_item_query: Q) -> (r: Self)
        ensures
            r.household_access_policy == household_access_policy,
            r.inventory_item_query == inventory_item_query,
    {
        GetInventoryItemService { household_access_policy, inventory_item_query }
    }
}

impl GetInventoryItemCommand {
    /// The requester must be a member; next, the item's listing is loaded.
    pub fn on_access<M>(self, reply: Result<M, HouseholdAccessError>) -> (r: Result<
        GetItemAwaitingItem,
        GetInventoryItemError,
    >)
        ensures
            reply matches Err(e) ==> r == Err::<GetItemAwaitingItem, GetInventoryItemError>(
                GetInventoryItemError::HouseholdAccess(e),
            ),
            reply is Ok ==> r == Ok::<GetItemAwaitingItem, GetInventoryItemError>(
                GetItemAwaitingItem { household_id: self.household_id, item_id: self.item_id },
            ),
    {
        match reply {
            Err(e) => Err(GetInventoryItemError::HouseholdAccess(e)),
            Ok(_) => Ok(GetItemAwaitingItem { household_id: self.household_id, item_id: self.item_id }),
        }
    }
}

/// Waiting for the listing of the active item `item_id` of `household_id`.
#[derive(Debug, Clone, Copy, PartialEq, Eq, Structural)]
pub struct GetItemAwaitingItem {
    pub household_id: HouseholdId,
    pub item_id: InventoryItemId,
}

impl GetItemAwaitingItem {
    /// The listing found is the answer.
    pub fn on_item<T, E>(self, reply: Result<Option<T>, E>) -> (r: Result<T, GetInventoryItemError>)
        ensures
            reply is Err ==> r == Err::<T, GetInventoryItemError>(
                GetInventoryItemError::Internal(InternalError::Failed),
            ),
            reply == Ok::<Option<T>, E>(None) ==> r == Err::<T, GetInventoryItemError>(
                GetInventoryItemError::ItemNotFound,
            ),
            reply matches Ok(Some(item)) ==> r == Ok::<T, GetInventoryItemError>(item),
    {
        match reply {
            Err(_) => Err(GetInventoryItemError::Internal(InternalError::Failed)),
            Ok(None) => Err(GetInventoryItemError::ItemNotFound),
            Ok(Some(item)) => Ok(item),
        }
    }
}

} // verus!
