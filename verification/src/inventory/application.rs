pub mod archive_item;
pub mod create_category;
pub mod delete_category;
pub mod get_inventory_item;
pub mod list_categories;
pub mod list_inventory_stock_history;
pub mod restore_item;
pub mod set_stock;
pub mod create_inventory_item;
pub mod update_category;
pub mod update_inventory_item;
