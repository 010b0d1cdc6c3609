use backend::accounts::UserId;
use backend::households::domain::{HouseholdEvent, HouseholdId};
use backend::households::ports::HouseholdAccessError;
use backend::inventory::application::archive_item::{
    ArchiveInventoryItemCommand, ArchiveInventoryItemError,
};
use backend::inventory::application::create_category::{
    CreateCategoryCommand, CreateCategoryError, CreateCategoryService,
};
use backend::inventory::application::create_inventory_item::{
    CreateInventoryItemCommand, CreateInventoryItemError, CreateInventoryItemService,
    CreateItemAfterAccess,
};
use backend::inventory::application::delete_category::{
    DeleteCategoryCommand, DeleteCategoryError,
};
use backend::inventory::application::get_inventory_item::{
    GetInventoryItemCommand, GetInventoryItemError,
};
use backend::inventory::application::list_categories::{
    ListCategoriesCommand, ListCategoriesError,
};
use backend::inventory::application::list_inventory_stock_history::{
    ListInventoryStockHistoryCommand, ListInventoryStockHistoryError,
};
use backend::inventory::application::restore_item::{
    RestoreInventoryItemCommand, RestoreInventoryItemError,
};
use backend::inventory::application::set_stock::{SetInventoryStockCommand, SetInventoryStockError};
use backend::inventory::application::update_category::{
    UpdateCategoryCommand, UpdateCategoryError, UpdateCategoryService,
};
use backend::inventory::application::update_inventory_item::{
    map_inventory_item_error, UpdateInventoryItemCommand, UpdateInventoryItemError,
    UpdateInventoryItemService, UpdateItemAfterItem,
};
use backend::inventory::domain::{
    Category, CategoryId, CategoryName, InventoryItem, InventoryItemError, InventoryItemId,
    InventoryItemName, InventoryPriority, InventoryStockEventSource,
};
use backend::inventory::ports::{
    CategoryRepositoryError, InventoryItemRepositoryError, InventoryStockRepositoryError,
};
use backend::shared::{InternalError, PersistenceError};

const NOW: i64 = 1_700_000_000_000_000;
const LATER: i64 = NOW + 60;

fn household() -> HouseholdId {
    HouseholdId::from_u128(10)
}

fn requester() -> UserId {
    UserId::from_u128(20)
}

fn item_id() -> InventoryItemId {
    InventoryItemId::from_u128(30)
}

fn granted() -> Result<(), HouseholdAccessError> {
    Ok(())
}

fn forbidden() -> Result<(), HouseholdAccessError> {
    Err(HouseholdAccessError::Forbidden)
}

fn item(archived: bool) -> InventoryItem {
    let mut item = InventoryItem::new(
        item_id(),
        household(),
        None,
        InventoryItemName::parse("Milk").expect("valid name"),
        2,
        4,
        InventoryPriority::Default,
        NOW,
        NOW,
    );
    if archived {
        item.archive(NOW).expect("archivable");
    }
    item
}

fn category(id: u128) -> Category {
    Category::new(
        CategoryId::from_u128(id),
        household(),
        CategoryName::parse("Dairy").expect("valid name"),
        NOW,
        NOW,
    )
}

fn archive_command() -> ArchiveInventoryItemCommand {
    ArchiveInventoryItemCommand {
        requester_id: requester(),
        household_id: household(),
        item_id: item_id(),
    }
}

#[test]
fn member_can_archive_inventory_item() {
    let stage = archive_command().on_access(granted()).expect("member");
    let stage = stage.on_item_at(Ok(Some(item(false))), LATER).expect("active item");

    assert_eq!(stage.item.archived_at, Some(LATER));
    assert_eq!(stage.item.updated_at, LATER);
    assert_eq!(stage.on_updated(Ok(())), Ok(()));
}

#[test]
fn archiving_unknown_item_returns_not_found() {
    let stage = archive_command().on_access(granted()).expect("member");

    assert_eq!(
        stage.on_item_at(Ok(None), LATER).err(),
        Some(ArchiveInventoryItemError::ItemNotFound)
    );
}

#[test]
fn archiving_already_archived_item_is_rejected() {
    let stage = archive_command().on_access(granted()).expect("member");

    assert_eq!(
        stage.on_item_at(Ok(Some(item(true))), LATER).err(),
        Some(ArchiveInventoryItemError::AlreadyArchived)
    );
}

#[test]
fn archive_item_non_member_is_forbidden() {
    assert_eq!(
        archive_command().on_access(forbidden()).err(),
        Some(ArchiveInventoryItemError::HouseholdAccess(HouseholdAccessError::Forbidden))
    );
}

#[test]
fn archive_store_failure_is_internal() {
    let stage = archive_command().on_access(granted()).expect("member");

    assert_eq!(
        stage
            .on_item_at(Err(InventoryItemRepositoryError::Persistence(PersistenceError::Failed)), LATER)
            .err(),
        Some(ArchiveInventoryItemError::Internal(InternalError::Failed))
    );
}

fn restore_command() -> RestoreInventoryItemCommand {
    RestoreInventoryItemCommand {
        requester_id: requester(),
        household_id: household(),
        item_id: item_id(),
    }
}

#[test]
fn member_can_restore_inventory_item() {
    let stage = restore_command().on_access(granted()).expect("member");
    let stage = stage.on_item_at(Ok(Some(item(true))), LATER).expect("archived item");

    assert_eq!(stage.item.archived_at, None);
    let pending = stage.on_updated(Ok(())).expect("stored");
    assert_eq!(pending.household_id, household());
    assert!(pending.events.contains(&HouseholdEvent::InventoryItemsChanged));
    assert!(pending.events.contains(&HouseholdEvent::ShoppingListChanged));
}

#[test]
fn restoring_unknown_item_returns_not_found() {
    let stage = restore_command().on_access(granted()).expect("member");

    assert_eq!(
        stage.on_item_at(Ok(None), LATER).err(),
        Some(RestoreInventoryItemError::ItemNotFound)
    );
}

#[test]
fn restoring_active_item_is_rejected() {
    let stage = restore_command().on_access(granted()).expect("member");

    assert_eq!(
        stage.on_item_at(Ok(Some(item(false))), LATER).err(),
        Some(RestoreInventoryItemError::NotArchived)
    );
}

#[test]
fn restore_item_non_member_is_forbidden() {
    assert_eq!(
        restore_command().on_access(forbidden()).err(),
        Some(RestoreInventoryItemError::HouseholdAccess(HouseholdAccessError::Forbidden))
    );
}

#[test]
fn restoring_duplicate_active_name_is_rejected() {
    let stage = restore_command().on_access(granted()).expect("member");
    let stage = stage.on_item_at(Ok(Some(item(true))), LATER).expect("archived item");

    assert_eq!(
        stage.on_updated(Err(InventoryItemRepositoryError::ItemAlreadyExists)).err(),
        Some(RestoreInventoryItemError::ItemAlreadyExists)
    );
}

fn create_category_command(name: &str) -> CreateCategoryCommand {
    CreateCategoryCommand {
        requester_id: requester(),
        household_id: household(),
        name: name.to_string(),
    }
}

#[test]
fn household_member_can_create_category() {
    let service = CreateCategoryService::new((), ());
    let stage = service.begin(create_category_command("Dairy")).expect("valid name");
    let stage = stage.on_access(granted()).expect("member");
    let id = CategoryId::from_u128(77);
    let stage = stage
        .on_existing_at(Ok::<Option<Category>, ()>(None), id, NOW)
        .expect("free name");

    assert_eq!(stage.category.name.as_str(), "Dairy");
    assert_eq!(stage.on_inserted(Ok(())), Ok(id));
}

#[test]
fn create_category_invalid_name_is_rejected() {
    let service = CreateCategoryService::new((), ());

    assert_eq!(
        service.begin(create_category_command(" ")).err(),
        Some(CreateCategoryError::InvalidName)
    );
}

#[test]
fn create_category_non_member_is_forbidden() {
    let service = CreateCategoryService::new((), ());
    let stage = service.begin(create_category_command("Dairy")).expect("valid name");

    assert_eq!(
        stage.on_access(forbidden()).err(),
        Some(CreateCategoryError::HouseholdAccess(HouseholdAccessError::Forbidden))
    );
}

#[test]
fn duplicate_category_name_is_rejected() {
    let service = CreateCategoryService::new((), ());
    let stage = service.begin(create_category_command("Dairy")).expect("valid name");
    let stage = stage.on_access(granted()).expect("member");

    assert_eq!(
        stage
            .on_existing_at(Ok::<Option<Category>, ()>(Some(category(1))), CategoryId::from_u128(2), NOW)
            .err(),
        Some(CreateCategoryError::CategoryAlreadyExists)
    );
}

#[test]
fn duplicate_category_reported_by_the_store_is_preserved() {
    let service = CreateCategoryService::new((), ());
    let stage = service.begin(create_category_command("Dairy")).expect("valid name");
    let stage = stage.on_access(granted()).expect("member");
    let stage = stage
        .on_existing_at(Ok::<Option<Category>, ()>(None), CategoryId::from_u128(2), NOW)
        .expect("free name");

    assert_eq!(
        stage.on_inserted(Err(CategoryRepositoryError::CategoryAlreadyExists)),
        Err(CreateCategoryError::CategoryAlreadyExists)
    );
}

fn create_item_command(name: &str, category_id: Option<CategoryId>, priority: Option<InventoryPriority>) -> CreateInventoryItemCommand {
    CreateInventoryItemCommand {
        requester_id: requester(),
        household_id: household(),
        category_id,
        name: name.to_string(),
        current_stock: 3,
        reorder_threshold: 5,
        priority,
    }
}

#[test]
fn household_member_can_create_inventory_item() {
    let service = CreateInventoryItemService::new((), (), (), ());
    let stage = service
        .begin(create_item_command("Milk", None, Some(InventoryPriority::High)))
        .expect("valid name");
    let stage = match stage.on_access(granted()).expect("member") {
        CreateItemAfterAccess::CheckName(stage) => stage,
        CreateItemAfterAccess::CheckCategory(_) => panic!("no category was given"),
    };
    let stage = stage
        .on_existing_at(Ok::<Option<InventoryItem>, ()>(None), item_id(), NOW)
        .expect("free name");

    assert_eq!(stage.item.name.as_str(), "Milk");
    assert_eq!(stage.item.current_stock, 3);
    assert_eq!(stage.item.reorder_threshold, 5);
    assert_eq!(stage.item.priority, InventoryPriority::High);
    assert_eq!(stage.item.archived_at, None);
    let (id, pending) = stage.on_inserted(Ok(())).expect("stored");
    assert_eq!(id, item_id());
    assert_eq!(pending.household_id, household());
}

#[test]
fn created_item_uses_default_priority_when_none_is_provided() {
    let service = CreateInventoryItemService::new((), (), (), ());
    let stage = service.begin(create_item_command("Milk", None, None)).expect("valid name");
    let stage = match stage.on_access(granted()).expect("member") {
        CreateItemAfterAccess::CheckName(stage) => stage,
        CreateItemAfterAccess::CheckCategory(_) => panic!("no category was given"),
    };
    let stage = stage
        .on_existing_at(Ok::<Option<InventoryItem>, ()>(None), item_id(), NOW)
        .expect("free name");

    assert_eq!(stage.item.priority, InventoryPriority::Default);
}

#[test]
fn inventory_item_can_be_created_with_category() {
    let service = CreateInventoryItemService::new((), (), (), ());
    let category_id = CategoryId::from_u128(5);
    let stage = service
        .begin(create_item_command("Milk", Some(category_id), None))
        .expect("valid name");
    let stage = match stage.on_access(granted()).expect("member") {
        CreateItemAfterAccess::CheckCategory(stage) => stage,
        CreateItemAfterAccess::CheckName(_) => panic!("a category was given"),
    };
    assert_eq!(stage.category_id, category_id);
    let stage = stage
        .on_category(Ok::<Option<Category>, ()>(Some(category(5))))
        .expect("known category");
    let stage = stage
        .on_existing_at(Ok::<Option<InventoryItem>, ()>(None), item_id(), NOW)
        .expect("free name");

    assert_eq!(stage.item.category_id, Some(category_id));
}

#[test]
fn create_inventory_item_invalid_name_is_rejected() {
    let service = CreateInventoryItemService::new((), (), (), ());

    assert_eq!(
        service.begin(create_item_command("", None, None)).err(),
        Some(CreateInventoryItemError::InvalidName)
    );
}

#[test]
fn create_inventory_item_unknown_household_returns_household_not_found() {
    let service = CreateInventoryItemService::new((), (), (), ());
    let stage = service.begin(create_item_command("Milk", None, None)).expect("valid name");

    assert_eq!(
        stage
            .on_access(Err::<(), _>(HouseholdAccessError::HouseholdNotFound))
            .err(),
        Some(CreateInventoryItemError::HouseholdAccess(HouseholdAccessError::HouseholdNotFound))
    );
}

#[test]
fn create_inventory_item_non_member_returns_forbidden() {
    let service = CreateInventoryItemService::new((), (), (), ());
    let stage = service.begin(create_item_command("Milk", None, None)).expect("valid name");

    assert_eq!(
        stage.on_access(forbidden()).err(),
        Some(CreateInventoryItemError::HouseholdAccess(HouseholdAccessError::Forbidden))
    );
}

#[test]
fn category_from_different_household_returns_category_not_found() {
    let service = CreateInventoryItemService::new((), (), (), ());
    let stage = service
        .begin(create_item_command("Milk", Some(CategoryId::from_u128(5)), None))
        .expect("valid name");
    let stage = match stage.on_access(granted()).expect("member") {
        CreateItemAfterAccess::CheckCategory(stage) => stage,
        CreateItemAfterAccess::CheckName(_) => panic!("a category was given"),
    };

    assert_eq!(
        stage.on_category(Ok::<Option<Category>, ()>(None)).err(),
        Some(CreateInventoryItemError::CategoryNotFound)
    );
}

#[test]
fn duplicate_active_item_returns_item_already_exists() {
    let service = CreateInventoryItemService::new((), (), (), ());
    let stage = service.begin(create_item_command("Milk", None, None)).expect("valid name");
    let stage = match stage.on_access(granted()).expect("member") {
        CreateItemAfterAccess::CheckName(stage) => stage,
        CreateItemAfterAccess::CheckCategory(_) => panic!("no category was given"),
    };

    assert_eq!(
        stage
            .on_existing_at(Ok::<Option<InventoryItem>, ()>(Some(item(false))), item_id(), NOW)
            .err(),
        Some(CreateInventoryItemError::ItemAlreadyExists)
    );
}

fn delete_category_command() -> DeleteCategoryCommand {
    DeleteCategoryCommand {
        requester_id: requester(),
        household_id: household(),
        category_id: CategoryId::from_u128(5),
    }
}

#[test]
fn household_member_can_delete_category() {
    let stage = delete_category_command().on_access(granted()).expect("member");
    let pending = stage.on_deleted(Ok(())).expect("deleted");

    assert_eq!(pending.household_id, household());
    assert!(pending.events.contains(&HouseholdEvent::InventoryCategoriesChanged));
}

#[test]
fn delete_category_non_member_is_forbidden() {
    assert_eq!(
        delete_category_command().on_access(forbidden()).err(),
        Some(DeleteCategoryError::HouseholdAccess(HouseholdAccessError::Forbidden))
    );
}

#[test]
fn unknown_category_returns_category_not_found() {
    let stage = delete_category_command().on_access(granted()).expect("member");

    assert_eq!(
        stage.on_deleted(Err(CategoryRepositoryError::CategoryNotFound)).err(),
        Some(DeleteCategoryError::CategoryNotFound)
    );
}

fn list_categories_command() -> ListCategoriesCommand {
    ListCategoriesCommand {
        requester_id: requester(),
        household_id: household(),
    }
}

#[test]
fn household_member_can_list_categories() {
    let stage = list_categories_command().on_access(granted()).expect("member");

    let categories = stage
        .on_categories(Ok::<Vec<Category>, ()>(vec![category(1), category(2)]))
        .expect("listed");

    assert_eq!(categories, vec![category(1), category(2)]);
}

#[test]
fn list_categories_non_member_is_forbidden() {
    assert_eq!(
        list_categories_command().on_access(forbidden()).err(),
        Some(ListCategoriesError::HouseholdAccess(HouseholdAccessError::Forbidden))
    );
}

#[test]
fn list_categories_store_failure_is_internal() {
    let stage = list_categories_command().on_access(granted()).expect("member");

    assert_eq!(
        stage.on_categories(Err::<Vec<Category>, ()>(())),
        Err(ListCategoriesError::Internal(InternalError::Failed))
    );
}

fn get_item_command() -> GetInventoryItemCommand {
    GetInventoryItemCommand {
        requester_id: requester(),
        household_id: household(),
        item_id: item_id(),
    }
}

#[test]
fn member_gets_the_item_listing() {
    let stage = get_item_command().on_access(granted()).expect("member");

    assert_eq!(stage.on_item(Ok::<Option<u8>, ()>(Some(7))), Ok(7));
}

#[test]
fn missing_item_listing_is_not_found() {
    let stage = get_item_command().on_access(granted()).expect("member");

    assert_eq!(
        stage.on_item(Ok::<Option<u8>, ()>(None)),
        Err(GetInventoryItemError::ItemNotFound)
    );
    assert_eq!(
        get_item_command().on_access(forbidden()).err(),
        Some(GetInventoryItemError::HouseholdAccess(HouseholdAccessError::Forbidden))
    );
}

fn history_command() -> ListInventoryStockHistoryCommand {
    ListInventoryStockHistoryCommand {
        requester_id: requester(),
        household_id: household(),
        item_id: item_id(),
    }
}

#[test]
fn member_gets_the_stock_history_of_an_existing_item() {
    let stage = history_command().on_access(granted()).expect("member");
    let stage = stage
        .on_item(Ok::<Option<InventoryItem>, ()>(Some(item(true))))
        .expect("item exists");

    assert_eq!(stage.on_history(Ok::<Vec<u8>, ()>(vec![3, 2, 1])), Ok(vec![3, 2, 1]));
}

#[test]
fn stock_history_of_a_missing_item_is_not_found() {
    let stage = history_command().on_access(granted()).expect("member");

    assert_eq!(
        stage.on_item(Ok::<Option<InventoryItem>, ()>(None)).err(),
        Some(ListInventoryStockHistoryError::ItemNotFound)
    );
}

fn set_stock_command() -> SetInventoryStockCommand {
    SetInventoryStockCommand {
        requester_id: requester(),
        household_id: household(),
        item_id: item_id(),
        stock: 9,
    }
}

#[test]
fn member_sets_stock_as_a_manual_change() {
    let stage = set_stock_command().on_access_at(granted(), NOW).expect("member");

    assert_eq!(stage.stock, 9);
    assert_eq!(stage.now, NOW);
    assert_eq!(stage.context.actor_user_id, Some(requester()));
    assert_eq!(stage.context.actor_device_id, None);
    assert_eq!(stage.context.source, InventoryStockEventSource::Manual);
    assert_eq!(stage.on_set(Ok(())), Ok(()));
}

#[test]
fn setting_stock_reports_missing_and_archived_items() {
    let stage = set_stock_command().on_access_at(granted(), NOW).expect("member");
    assert_eq!(
        stage.on_set(Err(InventoryStockRepositoryError::ItemNotFound)),
        Err(SetInventoryStockError::ItemNotFound)
    );

    let stage = set_stock_command().on_access_at(granted(), NOW).expect("member");
    assert_eq!(
        stage.on_set(Err(InventoryStockRepositoryError::ItemArchived)),
        Err(SetInventoryStockError::ItemArchived)
    );

    let stage = set_stock_command().on_access_at(granted(), NOW).expect("member");
    assert_eq!(
        stage.on_set(Err(InventoryStockRepositoryError::StockOverflow)),
        Err(SetInventoryStockError::Internal(InternalError::Failed))
    );
}

fn update_category_command(name: &str) -> UpdateCategoryCommand {
    UpdateCategoryCommand {
        requester_id: requester(),
        household_id: household(),
        category_id: CategoryId::from_u128(5),
        name: name.to_string(),
    }
}

#[test]
fn member_can_rename_category() {
    let service = UpdateCategoryService::new((), (), ());
    let stage = service.begin(update_category_command("Fridge")).expect("valid name");
    let stage = stage.on_access(granted()).expect("member");
    let stage = stage.on_category_at(Ok(Some(category(5))), LATER).expect("known category");

    assert_eq!(stage.category.name.as_str(), "Fridge");
    assert_eq!(stage.category.updated_at, LATER);
    let pending = stage.on_updated(Ok(())).expect("stored");
    assert!(pending.events.contains(&HouseholdEvent::InventoryCategoriesChanged));
}

#[test]
fn renaming_category_reports_its_errors() {
    let service = UpdateCategoryService::new((), (), ());
    assert_eq!(
        service.begin(update_category_command("")).err(),
        Some(UpdateCategoryError::InvalidName)
    );

    let stage = service.begin(update_category_command("Fridge")).expect("valid name");
    let stage = stage.on_access(granted()).expect("member");
    assert_eq!(
        stage.on_category_at(Ok(None), LATER).err(),
        Some(UpdateCategoryError::CategoryNotFound)
    );
}

fn update_item_command() -> UpdateInventoryItemCommand {
    UpdateInventoryItemCommand {
        requester_id: requester(),
        household_id: household(),
        item_id: item_id(),
        name: None,
        category_id: None,
        reorder_threshold: None,
        priority: None,
    }
}

fn stored_update(command: UpdateInventoryItemCommand, current: InventoryItem) -> Result<InventoryItem, UpdateInventoryItemError> {
    let service = UpdateInventoryItemService::new((), (), ());
    let command = service.begin(command)?;
    let stage = command.on_access(granted())?;
    match stage.on_item_at(Ok(Some(current)), LATER)? {
        UpdateItemAfterItem::Store(stage) => Ok(stage.item),
        UpdateItemAfterItem::CheckCategory(stage) => {
            let stage = stage.on_category_at(Ok::<Option<Category>, ()>(Some(category(5))), LATER)?;
            Ok(stage.item)
        }
    }
}

#[test]
fn member_can_update_inventory_item_metadata() {
    let command = UpdateInventoryItemCommand {
        name: Some("Oat milk".to_string()),
        category_id: Some(Some(CategoryId::from_u128(5))),
        reorder_threshold: Some(8),
        priority: Some("low".to_string()),
        ..update_item_command()
    };

    let updated = stored_update(command, item(false)).expect("updated");

    assert_eq!(updated.name.as_str(), "Oat milk");
    assert_eq!(updated.category_id, Some(CategoryId::from_u128(5)));
    assert_eq!(updated.reorder_threshold, 8);
    assert_eq!(updated.priority, InventoryPriority::Low);
    assert_eq!(updated.updated_at, LATER);
    assert_eq!(updated.current_stock, 2);
}

#[test]
fn category_can_be_removed() {
    let mut current = item(false);
    current.category_id = Some(CategoryId::from_u128(5));
    let command = UpdateInventoryItemCommand {
        category_id: Some(None),
        ..update_item_command()
    };

    let updated = stored_update(command, current).expect("updated");

    assert_eq!(updated.category_id, None);
}

#[test]
fn empty_update_is_rejected() {
    assert_eq!(
        stored_update(update_item_command(), item(false)),
        Err(UpdateInventoryItemError::NoChanges)
    );
}

#[test]
fn update_inventory_item_invalid_name_is_rejected() {
    let command = UpdateInventoryItemCommand {
        name: Some("  ".to_string()),
        ..update_item_command()
    };

    assert_eq!(stored_update(command, item(false)), Err(UpdateInventoryItemError::InvalidName));
}

#[test]
fn invalid_priority_is_rejected() {
    let command = UpdateInventoryItemCommand {
        priority: Some("urgent".to_string()),
        ..update_item_command()
    };

    assert_eq!(
        stored_update(command, item(false)),
        Err(UpdateInventoryItemError::InvalidPriority)
    );
}

#[test]
fn category_from_different_household_is_rejected() {
    let service = UpdateInventoryItemService::new((), (), ());
    let command = service
        .begin(UpdateInventoryItemCommand {
            category_id: Some(Some(CategoryId::from_u128(6))),
            ..update_item_command()
        })
        .expect("has changes");
    let stage = command.on_access(granted()).expect("member");
    let stage = match stage.on_item_at(Ok(Some(item(false))), LATER).expect("item exists") {
        UpdateItemAfterItem::CheckCategory(stage) => stage,
        UpdateItemAfterItem::Store(_) => panic!("a category was given"),
    };

    assert_eq!(
        stage.on_category_at(Ok::<Option<Category>, ()>(None), LATER).err(),
        Some(UpdateInventoryItemError::CategoryNotFound)
    );
}

#[test]
fn archived_item_cannot_be_updated() {
    let command = UpdateInventoryItemCommand {
        reorder_threshold: Some(1),
        ..update_item_command()
    };

    assert_eq!(stored_update(command, item(true)), Err(UpdateInventoryItemError::ItemArchived));
}

#[test]
fn duplicate_active_name_is_rejected() {
    let service = UpdateInventoryItemService::new((), (), ());
    let command = service
        .begin(UpdateInventoryItemCommand {
            name: Some("Bread".to_string()),
            ..update_item_command()
        })
        .expect("has changes");
    let stage = command.on_access(granted()).expect("member");
    let stage = match stage.on_item_at(Ok(Some(item(false))), LATER).expect("item exists") {
        UpdateItemAfterItem::Store(stage) => stage,
        UpdateItemAfterItem::CheckCategory(_) => panic!("no category was given"),
    };

    assert_eq!(
        stage.on_updated(Err(InventoryItemRepositoryError::ItemAlreadyExists)),
        Err(UpdateInventoryItemError::ItemAlreadyExists)
    );
}

#[test]
fn update_inventory_item_non_member_is_forbidden() {
    let service = UpdateInventoryItemService::new((), (), ());
    let command = service
        .begin(UpdateInventoryItemCommand {
            reorder_threshold: Some(1),
            ..update_item_command()
        })
        .expect("has changes");

    assert_eq!(
        command.on_access(forbidden()).err(),
        Some(UpdateInventoryItemError::HouseholdAccess(HouseholdAccessError::Forbidden))
    );
}

#[test]
fn item_errors_map_to_update_errors() {
    assert_eq!(
        map_inventory_item_error(InventoryItemError::Archived),
        UpdateInventoryItemError::ItemArchived
    );
}

#[test]
fn created_item_and_category_names_compare_in_lowercase() {
    let items = CreateInventoryItemService::new((), (), (), ());
    let stage = items
        .begin(create_item_command("Tofu", None, Some(InventoryPriority::High)))
        .expect("valid name");
    let stage = match stage.on_access(granted()).expect("member") {
        CreateItemAfterAccess::CheckName(stage) => stage,
        CreateItemAfterAccess::CheckCategory(_) => panic!("no category was given"),
    };
    let stage = stage
        .on_existing_at(Ok::<Option<InventoryItem>, ()>(None), item_id(), NOW)
        .expect("free name");
    assert_eq!(stage.item.name.normalized(), "tofu");
    assert_eq!(stage.item.name.as_str(), "Tofu");

    let categories = CreateCategoryService::new((), ());
    let stage = categories.begin(create_category_command("Fruit")).expect("valid name");
    let stage = stage.on_access(granted()).expect("member");
    let stage = stage
        .on_existing_at(Ok::<Option<Category>, ()>(None), CategoryId::from_u128(3), NOW)
        .expect("free name");
    assert_eq!(stage.category.name.normalized(), "fruit");
    assert_eq!(
        CategoryName::parse("ÄPFEL").expect("valid name").normalized(),
        "äpfel"
    );
}
