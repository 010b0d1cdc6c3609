use vstd::prelude::*;

use crate::accounts::UserId;
use crate::devices::DeviceId;
use crate::households::domain::HouseholdId;
use crate::inventory::domain::{
    InventoryItemId, InventoryStockEventId, InventoryStockEventKind, InventoryStockEventSource,
};
use crate::inventory::ports::{InventoryStockRepositoryError, StockMutationContext};
use crate::shared::PersistenceError;

verus! {

/// What the store holds of an item's stock: its level and whether the item is archived.
#[derive(Debug, Clone, Copy, PartialEq, Eq, Structural)]
pub struct StockState {
    pub current_stock: i64,
    pub archived: bool,
}

/// An increase by `amount` applies to an active item whose stock stays within `u32`.
pub open spec fn increase_applies(state: StockState, amount: int) -> bool {
    !state.archived && state.current_stock <= u32::MAX - amount
}

/// A decrease by `amount` applies to an active item that holds at least `amount`.
pub open spec fn decrease_applies(state: StockState, amount: int) -> bool {
    !state.archived && state.current_stock >= amount
}

/// Explains why an increase by `amount` changed nothing, given the item's state read back
/// from the store: the item is missing, archived, or would overflow; an item for which none
/// of these holds means the store itself failed.
pub fn classify_failed_increase(state: Option<StockState>, amount: i64) -> (r:
    InventoryStockRepositoryError)
    requires
        0 <= amount <= u32::MAX,
    ensures
        state is None ==> r == InventoryStockRepositoryError::ItemNotFound,
        state matches Some(s) ==> (s.archived ==> r == InventoryStockRepositoryError::ItemArchived),
        state matches Some(s) ==> (!s.archived && s.current_stock > u32::MAX - amount ==> r
            == InventoryStockRepositoryError::StockOverflow),
        state matches Some(s) ==> (increase_applies(s, amount as int) ==> r
            == InventoryStockRepositoryError::Persistence(PersistenceError::Failed)),
{
    match state {
        None => InventoryStockRepositoryError::ItemNotFound,
        Some(s) => {
            if s.archived {
                InventoryStockRepositoryError::ItemArchived
            } else if s.current_stock > 0xffff_ffffi64 - amount {
                InventoryStockRepositoryError::StockOverflow
            } else {
                InventoryStockRepositoryError::Persistence(PersistenceError::Failed)
            }
        },
    }
}

/// Explains why a decrease by `amount` changed nothing: the item is missing, archived, or
/// holds less than `amount`; otherwise the store itself failed.
pub fn classify_failed_decrease(state: Option<StockState>, amount: i64) -> (r:
    InventoryStockRepositoryError)
    ensures
        state is None ==> r == InventoryStockRepositoryError::ItemNotFound,
        state matches Some(s) ==> (s.archived ==> r == InventoryStockRepositoryError::ItemArchived),
        state matches Some(s) ==> (!s.archived && s.current_stock < amount ==> r
            == InventoryStockRepositoryError::InsufficientStock),
        state matches Some(s) ==> (decrease_applies(s, amount as int) ==> r
            == InventoryStockRepositoryError::Persistence(PersistenceError::Failed)),
{
    match state {
        None => InventoryStockRepositoryError::ItemNotFound,
        Some(s) => {
            if s.archived {
                InventoryStockRepositoryError::ItemArchived
            } else if s.current_stock < amount {
                InventoryStockRepositoryError::InsufficientStock
            } else {
                InventoryStockRepositoryError::Persistence(PersistenceError::Failed)
            }
        },
    }
}

/// Explains why setting the stock changed nothing: the item is missing or archived;
/// otherwise the store itself failed.
pub fn classify_missing_or_archived(state: Option<StockState>) -> (r: InventoryStockRepositoryError)
    ensures
        state is None ==> r == InventoryStockRepositoryError::ItemNotFound,
        state matches Some(s) ==> (s.archived ==> r == InventoryStockRepositoryError::ItemArchived),
        state matches Some(s) ==> (!s.archived ==> r == InventoryStockRepositoryError::Persistence(
            PersistenceError::Failed,
        )),
{
    match state {
        None => InventoryStockRepositoryError::ItemNotFound,
        Some(s) => {
            if s.archived {
                InventoryStockRepositoryError::ItemArchived
            } else {
                InventoryStockRepositoryError::Persistence(PersistenceError::Failed)
            }
        },
    }
}

/// A change of an item's stock that a store is asked to make.
#[derive(Debug, Clone, Copy, PartialEq, Eq, Structural)]
pub enum StockChange {
    Increase(u32),
    Decrease(u32),
    SetTo(u32),
}

impl StockChange {
    /// The kind of stock event that records the change.
    pub open spec fn kind(self) -> InventoryStockEventKind {
        match self {
            StockChange::Increase(_) => InventoryStockEventKind::Increase,
            StockChange::Decrease(_) => InventoryStockEventKind::Decrease,
            StockChange::SetTo(_) => InventoryStockEventKind::SetStock,
        }
    }

    /// The amount the stock event records: the amount of an increase or a decrease, none
    /// for a new stock level.
    pub open spec fn recorded_amount(self) -> Option<i64> {
        match self {
            StockChange::Increase(amount) => Some(amount as i64),
            StockChange::Decrease(amount) => Some(amount as i64),
            StockChange::SetTo(_) => None,
        }
    }
}

/// What a store reports of an update that changed an item's stock.
#[derive(Debug, Clone, Copy, PartialEq, Eq, Structural)]
pub struct StockMutationRow {
    pub stock_before: i64,
    pub stock_after: i64,
}

/// The stock event a store records for a change it made.
#[derive(Debug, Clone, Copy, PartialEq, Eq)]
pub struct StockEventRecord {
    pub id: InventoryStockEventId,
    pub household_id: HouseholdId,
    pub item_id: InventoryItemId,
    pub actor_user_id: Option<UserId>,
    pub actor_device_id: Option<DeviceId>,
    pub kind: InventoryStockEventKind,
    pub source: InventoryStockEventSource,
    pub amount: Option<i64>,
    pub stock_before: i64,
    pub stock_after: i64,
    pub created_at: i64,
}

/// The stock event that records `change` of item `item_id`, made on behalf of `context` at
/// `now`, with the stock figures the store reported.
pub fn stock_event_record(
    id: InventoryStockEventId,
    household_id: HouseholdId,
    item_id: InventoryItemId,
    change: StockChange,
    context: &StockMutationContext,
    row: StockMutationRow,
    now: i64,
) -> (r: StockEventRecord)
    ensures
        r == (StockEventRecord {
            id,
            household_id,
            item_id,
            actor_user_id: context.actor_user_id,
            actor_device_id: context.actor_device_id,
            kind: change.kind(),
            source: context.source,
            amount: change.recorded_amount(),
            stock_before: row.stock_before,
            stock_after: row.stock_after,
            created_at: now,
        }),
{
    let (kind, amount) = match change {
        StockChange::Increase(amount) => (InventoryStockEventKind::Increase, Some(amount as i64)),
        StockChange::Decrease(amount) => (InventoryStockEventKind::Decrease, Some(amount as i64)),
        StockChange::SetTo(_) => (InventoryStockEventKind::SetStock, None),
    };
    StockEventRecord {
        id,
        household_id,
        item_id,
        actor_user_id: context.actor_user_id,
        actor_device_id: context.actor_device_id,
        kind,
        source: context.source,
        amount,
        stock_before: row.stock_before,
        stock_after: row.stock_after,
        created_at: now,
    }
}

/// Explains why `change` left the stock as it was, given the item's state read back from
/// the store.
pub fn explain_unchanged_stock(change: StockChange, state: Option<StockState>) -> (r:
    InventoryStockRepositoryError)
    ensures
        state is None ==> r == InventoryStockRepositoryError::ItemNotFound,
        state matches Some(s) ==> (s.archived ==> r == InventoryStockRepositoryError::ItemArchived),
        state matches Some(s) ==> (!s.archived ==> r == match change {
            StockChange::Increase(amount) => if s.current_stock > u32::MAX - amount {
                InventoryStockRepositoryError::StockOverflow
            } else {
                InventoryStockRepositoryError::Persistence(PersistenceError::Failed)
            },
            StockChange::Decrease(amount) => if s.current_stock < amount {
                InventoryStockRepositoryError::InsufficientStock
            } else {
                InventoryStockRepositoryError::Persistence(PersistenceError::Failed)
            },
            StockChange::SetTo(_) => InventoryStockRepositoryError::Persistence(
                PersistenceError::Failed,
            ),
        }),
{
    match change {
        StockChange::Increase(amount) => classify_failed_increase(state, amount as i64),
        StockChange::Decrease(amount) => classify_failed_decrease(state, amount as i64),
        StockChange::SetTo(_) => classify_missing_or_archived(state),
    }
}

} // verus!
