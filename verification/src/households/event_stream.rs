use vstd::prelude::*;

use crate::households::domain::HouseholdEvent;
use crate::households::ports::HouseholdEventReceiverError;

verus! {

/// The name under which a client following a household is told of what its receiver
/// delivered: each household event has a name of its own, a receiver that fell behind asks
/// the client to load the household again, and a closed receiver ends the stream (`None`).
pub open spec fn stream_event_name(received: Result<HouseholdEvent, HouseholdEventReceiverError>) -> Option<
    Seq<char>,
> {
    match received {
        Ok(HouseholdEvent::ShoppingListChanged) => Some("shopping_list_changed"@),
        Ok(HouseholdEvent::InventoryCategoriesChanged) => Some("inventory_categories_changed"@),
        Ok(HouseholdEvent::InventoryItemsChanged) => Some("inventory_items_changed"@),
        Ok(HouseholdEvent::HouseholdChanged) => Some("household_changed"@),
        Err(HouseholdEventReceiverError::Lagged) => Some("household_resync_required"@),
        Err(HouseholdEventReceiverError::Closed) => None,
    }
}

/// The payload sent with every stream event: an empty JSON object.
pub open spec fn stream_event_data() -> Seq<char> {
    "{}"@
}

/// Names the stream event for what a household's receiver delivered; `None` ends the
/// stream.
pub fn household_stream_event_name(
    received: &Result<HouseholdEvent, HouseholdEventReceiverError>,
) -> (r: Option<&'static str>)
    ensures
        match stream_event_name(*received) {
            Some(name) => r matches Some(s) && s@ == name,
            None => r is None,
        },
{
    match received {
        Ok(HouseholdEvent::ShoppingListChanged) => Some("shopping_list_changed"),
        Ok(HouseholdEvent::InventoryCategoriesChanged) => Some("inventory_categories_changed"),
        Ok(HouseholdEvent::InventoryItemsChanged) => Some("inventory_items_changed"),
        Ok(HouseholdEvent::HouseholdChanged) => Some("household_changed"),
        Err(HouseholdEventReceiverError::Lagged) => Some("household_resync_required"),
        Err(HouseholdEventReceiverError::Closed) => None,
    }
}

/// The payload of a stream event.
pub fn household_stream_event_data() -> (r: &'static str)
    ensures
        r@ == stream_event_data(),
{
    "{}"
}

} // verus!
