use vstd::prelude::*;

use crate::accounts::UserId;
use crate::households::application::pending_events::PendingHouseholdEvents;
use crate::households::domain::{HouseholdEvent, HouseholdId};
use crate::households::ports::HouseholdAccessError;
use crate::inventory::application::delete_category::category_change_events;
use crate::inventory::domain::{Category, CategoryId, CategoryName};
use crate::inventory::ports::CategoryRepositoryError;
use crate::shared::{InternalError, current_timestamp, is_blank_text};

verus! {

pub struct UpdateCategoryCommand {
    pub requester_id: UserId,
    pub household_id: HouseholdId,
    pub category_id: CategoryId,
    pub name: String,
}

#[derive(Debug, Clone, Copy, PartialEq, Eq, Structural)]
pub enum UpdateCategoryError {
    InvalidName,
    CategoryNotFound,
    HouseholdAccess(HouseholdAccessError),
    Internal(InternalError),
}

/// Renames a category of a household, for one of its members.
///
/// Stages: `begin` checks the name; the access policy's member check follows (`on_access`),
/// then the category is loaded (`on_category`), then the renamed category is stored
/// (`on_updated`); last the category, item and shopping list changes are published.
pub struct UpdateCategoryService<A, C, P> {
    pub household_access_policy: A,
    pub category_repository: C,
    pub household_events_publisher: P,
}

impl<A, C, P> UpdateCategoryService<A, C, P> {
    pub fn new(household_access_policy: A, category_repository: C, household_events_publisher: P) -> (r:
        Self)
        ensures
            r.household_access_policy == household_access_policy,
            r.category_repository == category_repository,
            r.household_events_publisher == household_events_publisher,
    {
        UpdateCategoryService { household_access_policy, category_repository, household_events_publisher }
    }

    /// Checks the new name; next, the requester's access is checked.
    pub fn begin(&self, command: UpdateCategoryCommand) -> (r: Result<
        UpdateCategoryAwaitingAccess,
        UpdateCategoryError,
    >)
        ensures
            is_blank_text(command.name@) ==> r == Err::<UpdateCategoryAwaitingAccess, UpdateCategoryError>(
                UpdateCategoryError::InvalidName,
            ),
            !is_blank_text(command.name@) ==> (r matches Ok(next) && next.requester_id
                == command.requester_id && next.household_id == command.household_id
                && next.category_id == command.category_id && next.name.value@ == command.name@),
    {
        match CategoryName::parse(command.name.as_str()) {
            Err(_) => Err(UpdateCategoryError::InvalidName),
            Ok(name) => Ok(
                UpdateCategoryAwaitingAccess {
                    requester_id: command.requester_id,
                    household_id: command.household_id,
                    category_id: command.category_id,
                    name,
                },
            ),
        }
    }
}

/// Waiting for the access policy to check that `requester_id` is a member of `household_id`.
pub struct UpdateCategoryAwaitingAccess {
    pub requester_id: UserId,
    pub household_id: HouseholdId,
    pub category_id: CategoryId,
    pub name: CategoryName,
}

impl UpdateCategoryAwaitingAccess {
    /// The requester must be a member; next, the category is loaded.
    pub fn on_access<M>(self, reply: Result<M, HouseholdAccessError>) -> (r: Result<
        UpdateCategoryAwaitingCategory,
        UpdateCategoryError,
    >)
        ensures
            reply matches Err(e) ==> r == Err::<UpdateCategoryAwaitingCategory, UpdateCategoryError>(
                UpdateCategoryError::HouseholdAccess(e),
            ),
            reply is Ok ==> r == Ok::<UpdateCategoryAwaitingCategory, UpdateCategoryError>(
                UpdateCategoryAwaitingCategory {
                    household_id: self.household_id,
                    category_id: self.category_id,
                    name: self.name,
                },
            ),
    {
        match reply {
            Err(e) => Err(UpdateCategoryError::HouseholdAccess(e)),
            Ok(_) => Ok(
                UpdateCategoryAwaitingCategory {
                    household_id: self.household_id,
                    category_id: self.category_id,
                    name: self.name,
                },
            ),
        }
    }
}

/// Waiting for the category `category_id` of `household_id`.
pub struct UpdateCategoryAwaitingCategory {
    pub household_id: HouseholdId,
    pub category_id: CategoryId,
    pub name: CategoryName,
}

impl UpdateCategoryAwaitingCategory {
    /// The category must exist; next, the category renamed at `now` is stored.
    pub fn on_category_at(self, reply: Result<Option<Category>, CategoryRepositoryError>, now: i64) -> (r:
        Result<UpdateCategoryAwaitingUpdate, UpdateCategoryError>)
        ensures
            reply is Err ==> r == Err::<UpdateCategoryAwaitingUpdate, UpdateCategoryError>(
                UpdateCategoryError::Internal(InternalError::Failed),
            ),
            reply == Ok::<Option<Category>, CategoryRepositoryError>(None) ==> r == Err::<
                UpdateCategoryAwaitingUpdate,
                UpdateCategoryError,
            >(UpdateCategoryError::CategoryNotFound),
            reply matches Ok(Some(c)) ==> r == Ok::<UpdateCategoryAwaitingUpdate, UpdateCategoryError>(
                UpdateCategoryAwaitingUpdate {
                    household_id: self.household_id,
                    category: Category { name: self.name, updated_at: now, ..c },
                },
            ),
    {
        match reply {
            Err(_) => Err(UpdateCategoryError::Internal(InternalError::Failed)),
            Ok(None) => Err(UpdateCategoryError::CategoryNotFound),
            Ok(Some(category)) => {
                let mut category = category;
                category.rename(self.name, now);
                Ok(UpdateCategoryAwaitingUpdate { household_id: self.household_id, category })
            },
        }
    }

    /// `on_category_at`, with the renaming stamped by the clock.
    pub fn on_category(self, reply: Result<Option<Category>, CategoryRepositoryError>) -> (r: Result<
        UpdateCategoryAwaitingUpdate,
        UpdateCategoryError,
    >)
        ensures
            reply is Err ==> r == Err::<UpdateCategoryAwaitingUpdate, UpdateCategoryError>(
                UpdateCategoryError::Internal(InternalError::Failed),
            ),
            reply == Ok::<Option<Category>, CategoryRepositoryError>(None) ==> r == Err::<
                UpdateCategoryAwaitingUpdate,
                UpdateCategoryError,
            >(UpdateCategoryError::CategoryNotFound),
            reply matches Ok(Some(c)) ==> (r matches Ok(next) && next.household_id
                == self.household_id && next.category == Category {
                name: self.name,
                updated_at: next.category.updated_at,
                ..c
            }),
    {
        let now = current_timestamp();
        self.on_category_at(reply, now)
    }
}

/// Waiting for the category store to store the renamed `category`.
pub struct UpdateCategoryAwaitingUpdate {
    pub household_id: HouseholdId,
    pub category: Category,
}

impl UpdateCategoryAwaitingUpdate {
    /// A store that reports the name as taken is answered with `CategoryNotFound`, and any
    /// other failure is internal; next, the changes are published.
    pub fn on_updated(self, reply: Result<(), CategoryRepositoryError>) -> (r: Result<
        PendingHouseholdEvents,
        UpdateCategoryError,
    >)
        ensures
            reply == Err::<(), CategoryRepositoryError>(CategoryRepositoryError::CategoryAlreadyExists)
                ==> r == Err::<PendingHouseholdEvents, UpdateCategoryError>(
                UpdateCategoryError::CategoryNotFound,
            ),
            reply matches Err(e) ==> (e != CategoryRepositoryError::CategoryAlreadyExists ==> r
                == Err::<PendingHouseholdEvents, UpdateCategoryError>(
                UpdateCategoryError::Internal(InternalError::Failed),
            )),
            reply is Ok ==> (r matches Ok(p) && p.household_id == self.household_id && p.events@
                == category_change_events()),
    {
        match reply {
            Err(CategoryRepositoryError::CategoryAlreadyExists) => Err(UpdateCategoryError::CategoryNotFound),
            Err(_) => Err(UpdateCategoryError::Internal(InternalError::Failed)),
            Ok(()) => Ok(
                PendingHouseholdEvents {
                    household_id: self.household_id,
                    events: vec![
                        HouseholdEvent::InventoryCategoriesChanged,
                        HouseholdEvent::InventoryItemsChanged,
                        HouseholdEvent::ShoppingListChanged,
                    ],
                },
            ),
        }
    }
}

} // verus!
