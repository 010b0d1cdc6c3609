use backend::inventory::domain::InventoryStockEventId;
use uuid::Uuid;

#[test]
fn new_creates_different_ids() {
    let first = InventoryStockEventId::new();
    let second = InventoryStockEventId::new();

    assert_ne!(first, second);
}

#[test]
fn from_uuid_preservers_uuid() {
    let uuid = Uuid::new_v4();

    let user_id = InventoryStockEventId::from_uuid(uuid);

    assert_eq!(user_id.as_uuid(), &uuid);
}

#[test]
fn into_uuid_returns_the_inner_uuid() {
    let uuid = Uuid::new_v4();
    let user_id = InventoryStockEventId::from_uuid(uuid);

    let result = user_id.into_uuid();

    assert_eq!(result, uuid);
}

#[test]
fn default_draws_a_fresh_id() {
    let first = InventoryStockEventId::default();
    let second = InventoryStockEventId::default();

    assert_ne!(first, second);
}
