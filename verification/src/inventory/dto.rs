use vstd::prelude::*;

use crate::inventory::read_models::{
    CategorySummary, InventoryItemListEntry, InventoryStockHistoryActor, InventoryStockHistoryEntry,
};

verus! {

/// A request to create a category.
pub struct CreateCategoryRequest {
    pub name: String,
}

/// A request to raise or lower an item's stock by `amount`.
pub struct ChangeInventoryStockRequest {
    pub amount: u32,
}

/// A request to set an item's stock to `stock`.
pub struct SetInventoryStockRequest {
    pub stock: u32,
}

/// The category of an item, as a response shows it.
pub struct InventoryItemCategoryResponse {
    pub id: u128,
    pub name: String,
}

impl InventoryItemCategoryResponse {
    pub fn from(value: CategorySummary) -> (r: Self)
        ensures
            r.id == value.id.value,
            r.name@ == value.name.value@,
    {
        InventoryItemCategoryResponse { id: value.id.as_u128(), name: value.name.value }
    }
}

/// An item listing, as a response shows it.
pub struct InventoryItemResponse {
    pub id: u128,
    pub name: String,
    pub category: Option<InventoryItemCategoryResponse>,
    pub current_stock: u32,
    pub reorder_threshold: u32,
    pub priority: String,
    pub shopping_quantity: u32,
}

impl InventoryItemResponse {
    pub fn from(value: InventoryItemListEntry) -> (r: Self)
        ensures
            r.id == value.id.value,
            r.name@ == value.name.value@,
            match value.category {
                Some(c) => r.category matches Some(rc) && rc.id == c.id.value && rc.name@
                    == c.name.value@,
                None => r.category is None,
            },
            r.current_stock == value.current_stock,
            r.reorder_threshold == value.reorder_threshold,
            r.priority@ == value.priority.name(),
            r.shopping_quantity == value.shopping_quantity,
    {
        let category = match value.category {
            Some(c) => Some(InventoryItemCategoryResponse::from(c)),
            None => None,
        };
        InventoryItemResponse {
            id: value.id.as_u128(),
            name: value.name.value,
            category,
            current_stock: value.current_stock,
            reorder_threshold: value.reorder_threshold,
            priority: value.priority.as_str().to_owned(),
            shopping_quantity: value.shopping_quantity,
        }
    }
}

/// Who made a stock change, as a response shows it.
pub enum InventoryStockHistoryActorResponse {
    User { id: u128, display_name: String },
    Device { id: u128, name: String },
    System,
}

/// `response` shows `actor`.
pub open spec fn shows_actor(response: InventoryStockHistoryActorResponse, actor: InventoryStockHistoryActor) -> bool {
    match actor {
        InventoryStockHistoryActor::User { id, display_name } => response matches InventoryStockHistoryActorResponse::User {
            id: rid,
            display_name: rname,
        } && rid == id.value && rname@ == display_name@,
        InventoryStockHistoryActor::Device { id, name } => response matches InventoryStockHistoryActorResponse::Device {
            id: rid,
            name: rname,
        } && rid == id.value && rname@ == name.value@,
        InventoryStockHistoryActor::System => response is System,
    }
}

impl InventoryStockHistoryActorResponse {
    pub fn from(value: InventoryStockHistoryActor) -> (r: Self)
        ensures
            shows_actor(r, value),
    {
        match value {
            InventoryStockHistoryActor::User { id, display_name } => Self::User {
                id: id.as_u128(),
                display_name,
            },
            InventoryStockHistoryActor::Device { id, name } => Self::Device {
                id: id.as_u128(),
                name: name.value,
            },
            InventoryStockHistoryActor::System => Self::System,
        }
    }
}

/// One line of an item's stock history, as a response shows it.
pub struct InventoryStockHistoryResponse {
    pub id: uuid::Uuid,
    pub sequence_number: i64,
    pub item_id: u128,
    pub kind: String,
    pub source: String,
    pub amount: Option<u32>,
    pub stock_before: u32,
    pub stock_after: u32,
    pub actor: InventoryStockHistoryActorResponse,
    pub created_at: i64,
}

impl InventoryStockHistoryResponse {
    pub fn from(value: InventoryStockHistoryEntry) -> (r: Self)
        ensures
            r.id == value.id.uuid,
            r.sequence_number == value.sequence_number,
            r.item_id == value.item_id.value,
            r.kind@ == value.kind.name(),
            r.source@ == value.source.name(),
            r.amount == value.amount,
            r.stock_before == value.stock_before,
            r.stock_after == value.stock_after,
            shows_actor(r.actor, value.actor),
            r.created_at == value.created_at,
    {
        InventoryStockHistoryResponse {
            id: value.id.into_uuid(),
            sequence_number: value.sequence_number,
            item_id: value.item_id.as_u128(),
            kind: value.kind.as_str().to_owned(),
            source: value.source.as_str().to_owned(),
            amount: value.amount,
            stock_before: value.stock_before,
            stock_after: value.stock_after,
            actor: InventoryStockHistoryActorResponse::from(value.actor),
            created_at: value.created_at,
        }
    }
}

} // verus!
