use vstd::prelude::*;

use crate::accounts::UserId;
use crate::devices::{DeviceId, DeviceName};
use crate::inventory::domain::{
    CategoryId, CategoryName, InventoryItemId, InventoryItemName, InventoryPriority,
    InventoryStockEventId, InventoryStockEventKind, InventoryStockEventKindError,
    InventoryStockEventSource, InventoryStockEventSourceError,
};
use crate::inventory::ports::{InventoryItemQueryError, InventoryStockHistoryQueryError};
use crate::shared::is_blank_text;

verus! {

/// Who made a stock change.
#[derive(Debug, Clone, PartialEq, Eq)]
pub enum InventoryStockHistoryActor {
    User { id: UserId, display_name: String },
    Device { id: DeviceId, name: DeviceName },
    System,
}

/// One line of an item's stock history.
#[derive(Debug, Clone, PartialEq, Eq)]
pub struct InventoryStockHistoryEntry {
    pub id: InventoryStockEventId,
    pub sequence_number: i64,
    pub item_id: InventoryItemId,
    pub kind: InventoryStockEventKind,
    pub source: InventoryStockEventSource,
    pub amount: Option<u32>,
    pub stock_before: u32,
    pub stock_after: u32,
    pub actor: InventoryStockHistoryActor,
    pub created_at: i64,
}

/// A stock event as the store returns it, joined with the names of its actor.
pub struct InventoryStockHistoryRow {
    pub id: uuid::Uuid,
    pub sequence_number: i64,
    pub item_id: u128,
    pub kind: String,
    pub source: String,
    pub amount: Option<i64>,
    pub stock_before: i64,
    pub stock_after: i64,
    pub actor_user_id: Option<u128>,
    pub actor_user_display_name: Option<String>,
    pub actor_device_id: Option<u128>,
    pub actor_device_name: Option<String>,
    pub created_at: i64,
}

/// A stored number is a valid stock figure when it fits in `u32`.
pub open spec fn fits_u32(v: i64) -> bool {
    0 <= v <= u32::MAX
}

/// The actor columns name exactly one user (with a display name), exactly one device (with
/// a name that is not blank), or nobody.
pub open spec fn stored_actor_valid(row: InventoryStockHistoryRow) -> bool {
    match (row.actor_user_id, row.actor_user_display_name, row.actor_device_id, row.actor_device_name) {
        (Some(_), Some(_), None, None) => true,
        (None, None, Some(_), Some(name)) => !is_blank_text(name@),
        (None, None, None, None) => true,
        _ => false,
    }
}

/// `actor` is the actor that the row's actor columns name.
pub open spec fn actor_of_row(row: InventoryStockHistoryRow, actor: InventoryStockHistoryActor) -> bool {
    match (row.actor_user_id, row.actor_user_display_name, row.actor_device_id, row.actor_device_name) {
        (Some(id), Some(name), None, None) => actor == InventoryStockHistoryActor::User {
            id: UserId { value: id },
            display_name: name,
        },
        (None, None, Some(id), Some(name)) => actor matches InventoryStockHistoryActor::Device {
            id: device,
            name: device_name,
        } && device.value == id && device_name.value@ == name@,
        (None, None, None, None) => actor == InventoryStockHistoryActor::System,
        _ => false,
    }
}

/// A row makes a history entry when its kind and source are known names, its numbers fit in
/// `u32` and its actor columns are consistent.
pub open spec fn row_is_valid(row: InventoryStockHistoryRow) -> bool {
    &&& InventoryStockEventKind::from_name(row.kind@) is Ok
    &&& InventoryStockEventSource::from_name(row.source@) is Ok
    &&& (row.amount matches Some(a) ==> fits_u32(a))
    &&& fits_u32(row.stock_before)
    &&& fits_u32(row.stock_after)
    &&& stored_actor_valid(row)
}

/// Reads a stored number as a stock figure.
fn stored_u32(v: i64) -> (r: Option<u32>)
    ensures
        fits_u32(v) ==> r == Some(v as u32),
        !fits_u32(v) ==> r is None,
{
    if 0 <= v && v <= 0xffff_ffffi64 {
        Some(v as u32)
    } else {
        None
    }
}

impl InventoryStockHistoryEntry {
    /// Builds a history entry from a stored row; a row that holds anything but a valid entry
    /// is reported as invalid stored data.
    pub fn try_from(value: InventoryStockHistoryRow) -> (r: Result<
        Self,
        InventoryStockHistoryQueryError,
    >)
        ensures
            !row_is_valid(value) ==> r == Err::<Self, InventoryStockHistoryQueryError>(
                InventoryStockHistoryQueryError::InvalidStoredData,
            ),
            row_is_valid(value) ==> (r matches Ok(e) && e.id.uuid == value.id && e.sequence_number
                == value.sequence_number && e.item_id.value == value.item_id && Ok::<
                InventoryStockEventKind,
                InventoryStockEventKindError,
            >(e.kind) == InventoryStockEventKind::from_name(value.kind@) && Ok::<
                InventoryStockEventSource,
                InventoryStockEventSourceError,
            >(e.source) == InventoryStockEventSource::from_name(value.source@) && (match value.amount {
                Some(a) => e.amount == Some(a as u32),
                None => e.amount is None,
            }) && e.stock_before == value.stock_before as u32 && e.stock_after
                == value.stock_after as u32 && actor_of_row(value, e.actor) && e.created_at
                == value.created_at),
    {
        let kind = match InventoryStockEventKind::parse(value.kind.as_str()) {
            Ok(kind) => kind,
            Err(_) => {
                return Err(InventoryStockHistoryQueryError::InvalidStoredData);
            },
        };
        let source = match InventoryStockEventSource::parse(value.source.as_str()) {
            Ok(source) => source,
            Err(_) => {
                return Err(InventoryStockHistoryQueryError::InvalidStoredData);
            },
        };
        let amount = match value.amount {
            Some(a) => match stored_u32(a) {
                Some(a) => Some(a),
                None => {
                    return Err(InventoryStockHistoryQueryError::InvalidStoredData);
                },
            },
            None => None,
        };
        let stock_before = match stored_u32(value.stock_before) {
            Some(v) => v,
            None => {
                return Err(InventoryStockHistoryQueryError::InvalidStoredData);
            },
        };
        let stock_after = match stored_u32(value.stock_after) {
            Some(v) => v,
            None => {
                return Err(InventoryStockHistoryQueryError::InvalidStoredData);
            },
        };
        let actor = match (
            value.actor_user_id,
            value.actor_user_display_name,
            value.actor_device_id,
            value.actor_device_name,
        ) {
            (Some(user_id), Some(display_name), None, None) => InventoryStockHistoryActor::User {
                id: UserId { value: user_id },
                display_name,
            },
            (None, None, Some(device_id), Some(device_name)) => {
                match DeviceName::parse(device_name.as_str()) {
                    Ok(name) => InventoryStockHistoryActor::Device {
                        id: DeviceId { value: device_id },
                        name,
                    },
                    Err(_) => {
                        return Err(InventoryStockHistoryQueryError::InvalidStoredData);
                    },
                }
            },
            (None, None, None, None) => InventoryStockHistoryActor::System,
            _ => {
                return Err(InventoryStockHistoryQueryError::InvalidStoredData);
            },
        };
        Ok(
            InventoryStockHistoryEntry {
                id: InventoryStockEventId { uuid: value.id },
                sequence_number: value.sequence_number,
                item_id: InventoryItemId { value: value.item_id },
                kind,
                source,
                amount,
                stock_before,
                stock_after,
                actor,
                created_at: value.created_at,
            },
        )
    }
}



/// How much of an item to buy: what is missing to bring its stock up to its reorder
/// threshold, nothing when the stock already reaches it.
pub open spec fn shopping_quantity(current_stock: u32, reorder_threshold: u32) -> u32 {
    if current_stock < reorder_threshold {
        (reorder_threshold - current_stock) as u32
    } else {
        0
    }
}

/// Buying the shopping quantity brings the stock up to the reorder threshold, and exactly
/// to it when anything is bought; nothing is bought of an item whose stock reaches the
/// threshold.
pub proof fn lemma_shopping_quantity_restocks(current_stock: u32, reorder_threshold: u32)
    ensures
        current_stock + shopping_quantity(current_stock, reorder_threshold) >= reorder_threshold,
        shopping_quantity(current_stock, reorder_threshold) > 0 ==> current_stock
            + shopping_quantity(current_stock, reorder_threshold) == reorder_threshold,
        shopping_quantity(current_stock, reorder_threshold) == 0 <==> current_stock
            >= reorder_threshold,
{
}

pub fn calculate_shopping_quantity(current_stock: u32, reorder_threshold: u32) -> (r: u32)
    ensures
        r == shopping_quantity(current_stock, reorder_threshold),
{
    if current_stock < reorder_threshold {
        reorder_threshold - current_stock
    } else {
        0
    }
}

/// The category an item is filed under, as an item listing shows it.
#[derive(Debug, Clone, PartialEq, Eq)]
pub struct CategorySummary {
    pub id: CategoryId,
    pub name: CategoryName,
}

/// An active item as a listing shows it, with what to buy of it.
#[derive(Debug, Clone, PartialEq, Eq)]
pub struct InventoryItemListEntry {
    pub id: InventoryItemId,
    pub name: InventoryItemName,
    pub category: Option<CategorySummary>,
    pub current_stock: u32,
    pub reorder_threshold: u32,
    pub priority: InventoryPriority,
    pub shopping_quantity: u32,
}

/// An item as the store returns it, joined with the name of its category.
pub struct InventoryItemListRow {
    pub id: u128,
    pub name: String,
    pub current_stock: i64,
    pub reorder_threshold: i64,
    pub priority: String,
    pub category_id: Option<u128>,
    pub category_name: Option<String>,
}

/// The category columns either both name a category, whose name is not blank, or are both
/// empty.
pub open spec fn stored_category_valid(row: InventoryItemListRow) -> bool {
    match (row.category_id, row.category_name) {
        (Some(_), Some(name)) => !is_blank_text(name@),
        (None, None) => true,
        _ => false,
    }
}

/// A stored item row describes an item listing: valid category columns, a name that is not
/// blank, stock figures that fit in `u32` and a known priority.
pub open spec fn item_row_is_valid(row: InventoryItemListRow) -> bool {
    &&& stored_category_valid(row)
    &&& !is_blank_text(row.name@)
    &&& fits_u32(row.current_stock)
    &&& fits_u32(row.reorder_threshold)
    &&& InventoryPriority::from_name(row.priority@) is Ok
}

impl InventoryItemListEntry {
    /// The listing a stored row describes; a row that describes none is invalid stored data.
    pub fn try_from(row: InventoryItemListRow) -> (r: Result<InventoryItemListEntry, InventoryItemQueryError>)
        ensures
            item_row_is_valid(row) <==> r is Ok,
            !item_row_is_valid(row) ==> r == Err::<InventoryItemListEntry, InventoryItemQueryError>(
                InventoryItemQueryError::InvalidStoredData,
            ),
            r matches Ok(entry) ==> {
                &&& entry.id == InventoryItemId { value: row.id }
                &&& entry.name.value@ == row.name@
                &&& match (row.category_id, row.category_name) {
                    (Some(id), Some(name)) => entry.category matches Some(c) && c.id == CategoryId {
                        value: id,
                    } && c.name.value@ == name@,
                    _ => entry.category is None,
                }
                &&& entry.current_stock == row.current_stock
                &&& entry.reorder_threshold == row.reorder_threshold
                &&& entry.priority == InventoryPriority::from_name(row.priority@)->Ok_0
                &&& entry.shopping_quantity == shopping_quantity(
                    entry.current_stock,
                    entry.reorder_threshold,
                )
            },
    {
        let category = match (row.category_id, row.category_name) {
            (Some(id), Some(name)) => match CategoryName::parse(name.as_str()) {
                Ok(name) => Some(CategorySummary { id: CategoryId::from_u128(id), name }),
                Err(_) => return Err(InventoryItemQueryError::InvalidStoredData),
            },
            (None, None) => None,
            _ => return Err(InventoryItemQueryError::InvalidStoredData),
        };
        let name = match InventoryItemName::parse(row.name.as_str()) {
            Ok(name) => name,
            Err(_) => return Err(InventoryItemQueryError::InvalidStoredData),
        };
        if row.current_stock < 0 || row.current_stock > 0xffff_ffffi64 {
            return Err(InventoryItemQueryError::InvalidStoredData);
        }
        let current_stock = row.current_stock as u32;
        if row.reorder_threshold < 0 || row.reorder_threshold > 0xffff_ffffi64 {
            return Err(InventoryItemQueryError::InvalidStoredData);
        }
        let reorder_threshold = row.reorder_threshold as u32;
        let priority = match InventoryPriority::parse(row.priority.as_str()) {
            Ok(priority) => priority,
            Err(_) => return Err(InventoryItemQueryError::InvalidStoredData),
        };
        let shopping_quantity = calculate_shopping_quantity(current_stock, reorder_threshold);
        Ok(
            InventoryItemListEntry {
                id: InventoryItemId::from_u128(row.id),
                name,
                category,
                current_stock,
                reorder_threshold,
                priority,
                shopping_quantity,
            },
        )
    }
}

} // verus!
