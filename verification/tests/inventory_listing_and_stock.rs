use backend::accounts::UserId;
use backend::devices::{DeviceId, DeviceName};
use backend::households::domain::HouseholdId;
use backend::inventory::domain::{
    CategoryId, InventoryItemId, InventoryPriority, InventoryStockEventId,
    InventoryStockEventKind, InventoryStockEventSource,
};
use backend::inventory::dto::{
    InventoryItemResponse, InventoryStockHistoryActorResponse, InventoryStockHistoryResponse,
};
use backend::inventory::ports::{
    InventoryItemQueryError, InventoryStockRepositoryError, StockMutationContext,
};
use backend::inventory::read_models::{
    calculate_shopping_quantity, InventoryItemListEntry, InventoryItemListRow,
    InventoryStockHistoryActor, InventoryStockHistoryEntry,
};
use backend::inventory::stock::{
    explain_unchanged_stock, stock_event_record, StockChange, StockMutationRow, StockState,
};
use backend::shared::PersistenceError;
use uuid::Uuid;

fn item_row() -> InventoryItemListRow {
    InventoryItemListRow {
        id: 9,
        name: "Milk".to_string(),
        current_stock: 1,
        reorder_threshold: 4,
        priority: "high".to_string(),
        category_id: Some(5),
        category_name: Some("Dairy".to_string()),
    }
}

#[test]
fn shopping_quantity_fills_up_to_the_threshold() {
    assert_eq!(calculate_shopping_quantity(1, 4), 3);
    assert_eq!(calculate_shopping_quantity(4, 4), 0);
    assert_eq!(calculate_shopping_quantity(9, 4), 0);
    assert_eq!(calculate_shopping_quantity(0, u32::MAX), u32::MAX);
}

#[test]
fn stored_item_is_listed_with_its_category() {
    let entry = InventoryItemListEntry::try_from(item_row()).expect("valid row");

    assert_eq!(entry.id, InventoryItemId::from_u128(9));
    assert_eq!(entry.name.as_str(), "Milk");
    let category = entry.category.clone().expect("category");
    assert_eq!(category.id, CategoryId::from_u128(5));
    assert_eq!(category.name.as_str(), "Dairy");
    assert_eq!(entry.current_stock, 1);
    assert_eq!(entry.reorder_threshold, 4);
    assert_eq!(entry.priority, InventoryPriority::High);
    assert_eq!(entry.shopping_quantity, 3);
}

#[test]
fn stored_item_without_category_is_listed_without_one() {
    let row = InventoryItemListRow {
        category_id: None,
        category_name: None,
        ..item_row()
    };

    let entry = InventoryItemListEntry::try_from(row).expect("valid row");

    assert_eq!(entry.category, None);
}

#[test]
fn half_named_category_is_invalid_stored_data() {
    let row = InventoryItemListRow {
        category_name: None,
        ..item_row()
    };

    assert_eq!(
        InventoryItemListEntry::try_from(row),
        Err(InventoryItemQueryError::InvalidStoredData)
    );
}

#[test]
fn stock_outside_u32_is_invalid_stored_data() {
    let negative = InventoryItemListRow {
        current_stock: -1,
        ..item_row()
    };
    let too_large = InventoryItemListRow {
        reorder_threshold: 1 << 32,
        ..item_row()
    };

    assert_eq!(
        InventoryItemListEntry::try_from(negative),
        Err(InventoryItemQueryError::InvalidStoredData)
    );
    assert_eq!(
        InventoryItemListEntry::try_from(too_large),
        Err(InventoryItemQueryError::InvalidStoredData)
    );
}

#[test]
fn unknown_priority_and_blank_names_are_invalid_stored_data() {
    let priority = InventoryItemListRow {
        priority: "urgent".to_string(),
        ..item_row()
    };
    let name = InventoryItemListRow {
        name: " ".to_string(),
        ..item_row()
    };
    let category_name = InventoryItemListRow {
        category_name: Some("".to_string()),
        ..item_row()
    };

    for row in [priority, name, category_name] {
        assert_eq!(
            InventoryItemListEntry::try_from(row),
            Err(InventoryItemQueryError::InvalidStoredData)
        );
    }
}

#[test]
fn item_response_shows_the_listing() {
    let entry = InventoryItemListEntry::try_from(item_row()).expect("valid row");

    let response = InventoryItemResponse::from(entry);

    assert_eq!(response.id, 9);
    assert_eq!(response.name, "Milk");
    let category = response.category.expect("category");
    assert_eq!(category.id, 5);
    assert_eq!(category.name, "Dairy");
    assert_eq!(response.priority, "high");
    assert_eq!(response.shopping_quantity, 3);
}

#[test]
fn history_response_shows_the_entry() {
    let uuid = Uuid::new_v4();
    let entry = InventoryStockHistoryEntry {
        id: InventoryStockEventId::from_uuid(uuid),
        sequence_number: 3,
        item_id: InventoryItemId::from_u128(9),
        kind: InventoryStockEventKind::SetStock,
        source: InventoryStockEventSource::Barcode,
        amount: None,
        stock_before: 2,
        stock_after: 7,
        actor: InventoryStockHistoryActor::Device {
            id: DeviceId::from_u128(4),
            name: DeviceName::parse("Scanner").expect("valid name"),
        },
        created_at: 99,
    };

    let response = InventoryStockHistoryResponse::from(entry);

    assert_eq!(response.id, uuid);
    assert_eq!(response.sequence_number, 3);
    assert_eq!(response.item_id, 9);
    assert_eq!(response.kind, "set");
    assert_eq!(response.source, "barcode");
    assert_eq!(response.amount, None);
    assert_eq!(response.stock_before, 2);
    assert_eq!(response.stock_after, 7);
    assert_eq!(response.created_at, 99);
    match response.actor {
        InventoryStockHistoryActorResponse::Device { id, name } => {
            assert_eq!(id, 4);
            assert_eq!(name, "Scanner");
        }
        _ => panic!("expected a device"),
    }
}

#[test]
fn history_actor_response_shows_users_and_the_system() {
    let user = InventoryStockHistoryActorResponse::from(InventoryStockHistoryActor::User {
        id: UserId::from_u128(8),
        display_name: "Ada".to_string(),
    });
    match user {
        InventoryStockHistoryActorResponse::User { id, display_name } => {
            assert_eq!(id, 8);
            assert_eq!(display_name, "Ada");
        }
        _ => panic!("expected a user"),
    }
    assert!(matches!(
        InventoryStockHistoryActorResponse::from(InventoryStockHistoryActor::System),
        InventoryStockHistoryActorResponse::System
    ));
}

#[test]
fn stock_event_records_the_change_and_its_context() {
    let id = InventoryStockEventId::new();
    let context = StockMutationContext {
        actor_user_id: Some(UserId::from_u128(1)),
        actor_device_id: None,
        source: InventoryStockEventSource::Manual,
    };
    let row = StockMutationRow {
        stock_before: 2,
        stock_after: 5,
    };

    let increase = stock_event_record(
        id,
        HouseholdId::from_u128(3),
        InventoryItemId::from_u128(4),
        StockChange::Increase(3),
        &context,
        row,
        77,
    );
    assert_eq!(increase.id, id);
    assert_eq!(increase.household_id, HouseholdId::from_u128(3));
    assert_eq!(increase.item_id, InventoryItemId::from_u128(4));
    assert_eq!(increase.actor_user_id, Some(UserId::from_u128(1)));
    assert_eq!(increase.actor_device_id, None);
    assert_eq!(increase.kind, InventoryStockEventKind::Increase);
    assert_eq!(increase.source, InventoryStockEventSource::Manual);
    assert_eq!(increase.amount, Some(3));
    assert_eq!(increase.stock_before, 2);
    assert_eq!(increase.stock_after, 5);
    assert_eq!(increase.created_at, 77);

    let set = stock_event_record(
        id,
        HouseholdId::from_u128(3),
        InventoryItemId::from_u128(4),
        StockChange::SetTo(5),
        &context,
        row,
        77,
    );
    assert_eq!(set.kind, InventoryStockEventKind::SetStock);
    assert_eq!(set.amount, None);

    let decrease = stock_event_record(
        id,
        HouseholdId::from_u128(3),
        InventoryItemId::from_u128(4),
        StockChange::Decrease(1),
        &context,
        row,
        77,
    );
    assert_eq!(decrease.kind, InventoryStockEventKind::Decrease);
    assert_eq!(decrease.amount, Some(1));
}

#[test]
fn unchanged_stock_is_explained() {
    let active = |current_stock| {
        Some(StockState {
            current_stock,
            archived: false,
        })
    };
    let archived = Some(StockState {
        current_stock: 1,
        archived: true,
    });
    let failed = InventoryStockRepositoryError::Persistence(PersistenceError::Failed);

    assert_eq!(
        explain_unchanged_stock(StockChange::Increase(1), None),
        InventoryStockRepositoryError::ItemNotFound
    );
    assert_eq!(
        explain_unchanged_stock(StockChange::Decrease(1), archived),
        InventoryStockRepositoryError::ItemArchived
    );
    assert_eq!(
        explain_unchanged_stock(StockChange::Increase(2), active(u32::MAX as i64 - 1)),
        InventoryStockRepositoryError::StockOverflow
    );
    assert_eq!(
        explain_unchanged_stock(StockChange::Increase(1), active(u32::MAX as i64 - 1)),
        failed
    );
    assert_eq!(
        explain_unchanged_stock(StockChange::Decrease(3), active(2)),
        InventoryStockRepositoryError::InsufficientStock
    );
    assert_eq!(explain_unchanged_stock(StockChange::Decrease(2), active(2)), failed);
    assert_eq!(explain_unchanged_stock(StockChange::SetTo(2), active(2)), failed);
    assert_eq!(
        explain_unchanged_stock(StockChange::SetTo(2), None),
        InventoryStockRepositoryError::ItemNotFound
    );
}
