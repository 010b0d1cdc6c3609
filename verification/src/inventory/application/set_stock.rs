use vstd::prelude::*;

use crate::accounts::UserId;
use crate::households::domain::HouseholdId;
use crate::households::ports::HouseholdAccessError;
use crate::inventory::domain::{InventoryItemId, InventoryStockEventSource};
use crate::inventory::ports::{InventoryStockRepositoryError, StockMutationContext};
use crate::shared::{InternalError, current_timestamp};

verus! {

pub struct SetInventoryStockCommand {
    pub requester_id: UserId,
    pub household_id: HouseholdId,
    pub item_id: InventoryItemId,
    pub stock: u32,
}

#[derive(Debug, Clone, Copy, PartialEq, Eq, Structural)]
pub enum SetInventoryStockError {
    ItemNotFound,
    ItemArchived,
    HouseholdAccess(HouseholdAccessError),
    Internal(InternalError),
}

/// Sets the stock of an item by hand, for a member of its household.
///
/// Stages: the command waits for the access policy's member check (`on_access`), then for
/// the stock store to set the stock (`on_set`).
pub struct SetInventoryStockService<A, S> {
    pub household_access_policy: A,
    pub inventory_stock_repository: S,
}

impl<A, S> SetInventoryStockService<A, S> {
    pub fn new(household_access_policy: A, inventory_stock_repository: S) -> (r: Self)
        ensures
            r.household_access_policy == household_access_policy,
            r.inventory_stock_repository == inventory_stock_repository,
    {
        SetInventoryStockService { household_access_policy, inventory_stock_repository }
    }
}

impl SetInventoryStockCommand {
    /// The requester must be a member; next, the stock is set at `now`, as a manual change
    /// made by the requester.
    pub fn on_access_at<M>(self, reply: Result<M, HouseholdAccessError>, now: i64) -> (r: Result<
        SetStockAwaitingSet,
        SetInventoryStockError,
    >)
        ensures
            reply matches Err(e) ==> r == Err::<SetStockAwaitingSet, SetInventoryStockError>(
                SetInventoryStockError::HouseholdAccess(e),
            ),
            reply is Ok ==> r == Ok::<SetStockAwaitingSet, SetInventoryStockError>(
                SetStockAwaitingSet {
                    household_id: self.household_id,
                    item_id: self.item_id,
                    stock: self.stock,
                    context: StockMutationContext {
                        actor_user_id: Some(self.requester_id),
                        actor_device_id: None,
                        source: InventoryStockEventSource::Manual,
                    },
                    now,
                },
            ),
    {
        match reply {
            Err(e) => Err(SetInventoryStockError::HouseholdAccess(e)),
            Ok(_) => Ok(
                SetStockAwaitingSet {
                    household_id: self.household_id,
                    item_id: self.item_id,
                    stock: self.stock,
                    context: StockMutationContext {
                        actor_user_id: Some(self.requester_id),
                        actor_device_id: None,
                        source: InventoryStockEventSource::Manual,
                    },
                    now,
                },
            ),
        }
    }

    /// `on_access_at`, with the change stamped by the clock.
    pub fn on_access<M>(self, reply: Result<M, HouseholdAccessError>) -> (r: Result<
        SetStockAwaitingSet,
        SetInventoryStockError,
    >)
        ensures
            reply matches Err(e) ==> r == Err::<SetStockAwaitingSet, SetInventoryStockError>(
                SetInventoryStockError::HouseholdAccess(e),
            ),
            reply is Ok ==> (r matches Ok(next) && next == SetStockAwaitingSet {
                household_id: self.household_id,
                item_id: self.item_id,
                stock: self.stock,
                context: StockMutationContext {
                    actor_user_id: Some(self.requester_id),
                    actor_device_id: None,
                    source: InventoryStockEventSource::Manual,
                },
                now: next.now,
            }),
    {
        let now = current_timestamp();
        self.on_access_at(reply, now)
    }
}

/// Waiting for the stock store to set the stock of `item_id` to `stock`.
#[derive(Debug, Clone, Copy, PartialEq, Eq, Structural)]
pub struct SetStockAwaitingSet {
    pub household_id: HouseholdId,
    pub item_id: InventoryItemId,
    pub stock: u32,
    pub context: StockMutationContext,
    pub now: i64,
}

impl SetStockAwaitingSet {
    /// A missing or archived item is reported as such; any other failure is internal.
    pub fn on_set(self, reply: Result<(), InventoryStockRepositoryError>) -> (r: Result<
        (),
        SetInventoryStockError,
    >)
        ensures
            reply == Err::<(), InventoryStockRepositoryError>(InventoryStockRepositoryError::ItemArchived)
                ==> r == Err::<(), SetInventoryStockError>(SetInventoryStockError::ItemArchived),
            reply == Err::<(), InventoryStockRepositoryError>(InventoryStockRepositoryError::ItemNotFound)
                ==> r == Err::<(), SetInventoryStockError>(SetInventoryStockError::ItemNotFound),
            reply matches Err(e) ==> (e != InventoryStockRepositoryError::ItemArchived && e
                != InventoryStockRepositoryError::ItemNotFound ==> r == Err::<
                (),
                SetInventoryStockError,
            >(SetInventoryStockError::Internal(InternalError::Failed))),
            reply is Ok ==> r is Ok,
    {
        match reply {
            Err(InventoryStockRepositoryError::ItemArchived) => Err(SetInventoryStockError::ItemArchived),
            Err(InventoryStockRepositoryError::ItemNotFound) => Err(SetInventoryStockError::ItemNotFound),
            Err(_) => Err(SetInventoryStockError::Internal(InternalError::Failed)),
            Ok(()) => Ok(()),
        }
    }
}

} // verus!
