use backend::inventory::domain::{
    InventoryStockEventKind, InventoryStockEventKindError, InventoryStockEventSource,
    InventoryStockEventSourceError,
};

#[test]
fn increase_can_be_parsed() {
    assert_eq!(
        InventoryStockEventKind::parse("increase"),
        Ok(InventoryStockEventKind::Increase)
    )
}

#[test]
fn decrease_can_be_parsed() {
    assert_eq!(
        InventoryStockEventKind::parse("decrease"),
        Ok(InventoryStockEventKind::Decrease)
    )
}

#[test]
fn set_can_be_parsed() {
    assert_eq!(
        InventoryStockEventKind::parse("set"),
        Ok(InventoryStockEventKind::SetStock)
    )
}

#[test]
fn inventory_stock_event_kind_unknown_kind_is_rejected() {
    assert_eq!(
        InventoryStockEventKind::parse("unknown"),
        Err(InventoryStockEventKindError::Invalid)
    )
}

#[test]
fn inventory_stock_event_kind_as_str_returns_database_representation() {
    assert_eq!(InventoryStockEventKind::Increase.as_str(), "increase");
    assert_eq!(InventoryStockEventKind::Decrease.as_str(), "decrease");
    assert_eq!(InventoryStockEventKind::SetStock.as_str(), "set");
}

#[test]
fn manual_can_be_parsed() {
    assert_eq!(
        InventoryStockEventSource::parse("manual"),
        Ok(InventoryStockEventSource::Manual)
    )
}

#[test]
fn qr_can_be_parsed() {
    assert_eq!(
        InventoryStockEventSource::parse("qr"),
        Ok(InventoryStockEventSource::Qr)
    )
}

#[test]
fn barcode_can_be_parsed() {
    assert_eq!(
        InventoryStockEventSource::parse("barcode"),
        Ok(InventoryStockEventSource::Barcode)
    )
}

#[test]
fn system_can_be_parsed() {
    assert_eq!(
        InventoryStockEventSource::parse("system"),
        Ok(InventoryStockEventSource::System)
    )
}

#[test]
fn inventory_stock_event_source_unknown_kind_is_rejected() {
    assert_eq!(
        InventoryStockEventSource::parse("unknown"),
        Err(InventoryStockEventSourceError::Invalid)
    )
}

#[test]
fn inventory_stock_event_source_as_str_returns_database_representation() {
    assert_eq!(InventoryStockEventSource::Manual.as_str(), "manual");
    assert_eq!(InventoryStockEventSource::Qr.as_str(), "qr");
    assert_eq!(InventoryStockEventSource::Barcode.as_str(), "barcode");
    assert_eq!(InventoryStockEventSource::System.as_str(), "system");
}

#[test]
fn parsing_is_case_sensitive() {
    assert_eq!(
        InventoryStockEventKind::parse("Increase"),
        Err(InventoryStockEventKindError::Invalid)
    );
    assert_eq!(
        InventoryStockEventSource::parse("QR"),
        Err(InventoryStockEventSourceError::Invalid)
    );
}

#[test]
fn every_stock_event_name_parses_back() {
    for kind in [
        InventoryStockEventKind::Increase,
        InventoryStockEventKind::Decrease,
        InventoryStockEventKind::SetStock,
    ] {
        assert_eq!(InventoryStockEventKind::parse(kind.as_str()), Ok(kind));
    }
    for source in [
        InventoryStockEventSource::Manual,
        InventoryStockEventSource::Qr,
        InventoryStockEventSource::Barcode,
        InventoryStockEventSource::System,
    ] {
        assert_eq!(InventoryStockEventSource::parse(source.as_str()), Ok(source));
    }
}
