use vstd::prelude::*;

use crate::accounts::UserId;
use crate::households::domain::HouseholdId;
use crate::households::ports::HouseholdAccessError;
use crate::inventory::domain::InventoryItemId;
use crate::shared::InternalError;

verus! {

pub struct ListInventoryStockHistoryCommand {
    pub requester_id: UserId,
    pub household_id: HouseholdId,
    pub item_id: InventoryItemId,
}

#[derive(Debug, Clone, Copy, PartialEq, Eq, Structural)]
pub enum ListInventoryStockHistoryError {
    ItemNotFound,
    HouseholdAccess(HouseholdAccessError),
    Internal(InternalError),
}

/// Lists the stock history of an item, for a member of its household.
///
/// Stages: the command waits for the access policy's member check (`on_access`), then for
/// the item, to make sure it exists (`on_item`), then for its history (`on_history`).
pub struct ListInventoryStockHistoryService<A, I, Q> {
    pub household_access_policy: A,
    pub inventory_item_repository: I,
    pub history_query: Q,
}

impl<A, I, Q> ListInventoryStockHistoryService<A, I, Q> {
    pub fn new(household_access_policy: A, inventory_item_repository: I, history_query: Q) -> (r: Self)
        ensures
            r.household_access_policy == household_access_policy,
            r.inventory_item_repository == inventory_item_repository,
            r.history_query == history_query,
    {
        ListInventoryStockHistoryService { household_access_policy, inventory_item_repository, history_query }
    }
}

impl ListInventoryStockHistoryCommand {
    /// The requester must be a member; next, the item is loaded.
    pub fn on_access<M>(self, reply: Result<M, HouseholdAccessError>) -> (r: Result<
        StockHistoryAwaitingItem,
        ListInventoryStockHistoryError,
    >)
        ensures
            reply matches Err(e) ==> r == Err::<StockHistoryAwaitingItem, ListInventoryStockHistoryError>(
                ListInventoryStockHistoryError::HouseholdAccess(e),
            ),
            reply is Ok ==> r == Ok::<StockHistoryAwaitingItem, ListInventoryStockHistoryError>(
                StockHistoryAwaitingItem { household_id: self.household_id, item_id: self.item_id },
            ),
    {
        match reply {
            Err(e) => Err(ListInventoryStockHistoryError::HouseholdAccess(e)),
            Ok(_) => Ok(StockHistoryAwaitingItem { household_id: self.household_id, item_id: self.item_id }),
        }
    }
}

/// Waiting for the item `item_id` of `household_id`.
#[derive(Debug, Clone, Copy, PartialEq, Eq, Structural)]
pub struct StockHistoryAwaitingItem {
    pub household_id: HouseholdId,
    pub item_id: InventoryItemId,
}

impl StockHistoryAwaitingItem {
    /// The item must exist; next, its history is loaded.
    pub fn on_item<T, E>(self, reply: Result<Option<T>, E>) -> (r: Result<
        StockHistoryAwaitingHistory,
        ListInventoryStockHistoryError,
    >)
        ensures
            reply is Err ==> r == Err::<StockHistoryAwaitingHistory, ListInventoryStockHistoryError>(
                ListInventoryStockHistoryError::Internal(InternalError::Failed),
            ),
            reply == Ok::<Option<T>, E>(None) ==> r == Err::<
                StockHistoryAwaitingHistory,
                ListInventoryStockHistoryError,
            >(ListInventoryStockHistoryError::ItemNotFound),
            reply matches Ok(Some(_)) ==> r == Ok::<
                StockHistoryAwaitingHistory,
                ListInventoryStockHistoryError,
            >(StockHistoryAwaitingHistory { household_id: self.household_id, item_id: self.item_id }),
    {
        match reply {
            Err(_) => Err(ListInventoryStockHistoryError::Internal(InternalError::Failed)),
            Ok(None) => Err(ListInventoryStockHistoryError::ItemNotFound),
            Ok(Some(_)) => Ok(
                StockHistoryAwaitingHistory { household_id: self.household_id, item_id: self.item_id },
            ),
        }
    }
}

/// Waiting for the stock history of `item_id`.
#[derive(Debug, Clone, Copy, PartialEq, Eq, Structural)]
pub struct StockHistoryAwaitingHistory {
    pub household_id: HouseholdId,
    pub item_id: InventoryItemId,
}

impl StockHistoryAwaitingHistory {
    /// The history found is the answer.
    pub fn on_history<T, E>(self, reply: Result<Vec<T>, E>) -> (r: Result<
        Vec<T>,
        ListInventoryStockHistoryError,
    >)
        ensures
            reply is Err ==> r == Err::<Vec<T>, ListInventoryStockHistoryError>(
                ListInventoryStockHistoryError::Internal(InternalError::Failed),
            ),
            reply matches Ok(entries) ==> r == Ok::<Vec<T>, ListInventoryStockHistoryError>(entries),
    {
        match reply {
            Err(_) => Err(ListInventoryStockHistoryError::Internal(InternalError::Failed)),
            Ok(entries) => Ok(entries),
        }
    }
}

} // verus!
