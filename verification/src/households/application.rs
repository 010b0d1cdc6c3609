pub mod add_member;
pub mod delete_household;
pub mod get_household;
pub mod leave_household;
pub mod list_members;
pub mod pending_events;
pub mod remove_member;
pub mod subscribe_household_events;
pub mod update_name;
