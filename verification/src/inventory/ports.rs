use vstd::prelude::*;

use crate::accounts::UserId;
use crate::devices::DeviceId;
use crate::inventory::domain::InventoryStockEventSource;
use crate::shared::PersistenceError;

verus! {

/// Why a category store refused or failed an operation.
#[derive(Debug, Clone, Copy, PartialEq, Eq, Structural)]
pub enum CategoryRepositoryError {
    CategoryNotFound,
    CategoryAlreadyExists,
    Persistence(PersistenceError),
}

/// Why an inventory item store refused or failed an operation.
#[derive(Debug, Clone, Copy, PartialEq, Eq, Structural)]
pub enum InventoryItemRepositoryError {
    ItemNotFound,
    ItemAlreadyExists,
    CategoryNotFound,
    Persistence(PersistenceError),
}

#[derive(Debug, Clone, Copy, PartialEq, Eq, Structural)]
pub enum InventoryItemQueryError {
    Persistence(PersistenceError),
    InvalidStoredData,
}

#[derive(Debug, Clone, Copy, PartialEq, Eq, Structural)]
pub enum InventoryStockHistoryQueryError {
    InvalidStoredData,
    Persistence(PersistenceError),
}

/// Why a stock change was refused or failed.
#[derive(Debug, Clone, Copy, PartialEq, Eq, Structural)]
pub enum InventoryStockRepositoryError {
    ItemNotFound,
    ItemArchived,
    InsufficientStock,
    StockOverflow,
    Persistence(PersistenceError),
}

/// Who changed a stock, and how.
#[derive(Debug, Clone, Copy, PartialEq, Eq, Structural)]
pub struct StockMutationContext {
    pub actor_user_id: Option<UserId>,
    pub actor_device_id: Option<DeviceId>,
    pub source: InventoryStockEventSource,
}

} // verus!
