use vstd::prelude::*;

use crate::accounts::UserId;
use crate::households::application::pending_events::PendingHouseholdEvents;
use crate::households::domain::{HouseholdEvent, HouseholdId};
use crate::households::ports::HouseholdAccessError;
use crate::inventory::domain::CategoryId;
use crate::inventory::ports::CategoryRepositoryError;
use crate::shared::InternalError;

verus! {

pub struct DeleteCategoryCommand {
    pub requester_id: UserId,
    pub household_id: HouseholdId,
    pub category_id: CategoryId,
}

#[derive(Debug, Clone, Copy, PartialEq, Eq, Structural)]
pub enum DeleteCategoryError {
    CategoryNotFound,
    HouseholdAccess(HouseholdAccessError),
    Internal(InternalError),
}

/// The events that follow a change of a household's categories, in the order they are
/// published: the categories, the items, the shopping list.
pub open spec fn category_change_events() -> Seq<HouseholdEvent> {
    seq![
        HouseholdEvent::InventoryCategoriesChanged,
        HouseholdEvent::InventoryItemsChanged,
        HouseholdEvent::ShoppingListChanged,
    ]
}

/// Deletes a category of a household, for one of its members.
///
/// Stages: the command waits for the access policy's member check (`on_access`), then for
/// the deletion (`on_deleted`); last the category, item and shopping list changes are
/// published.
pub struct DeleteCategoryService<A, C, P> {
    pub household_access_policy: A,
    pub category_repository: C,
    pub household_events_publisher: P,
}

impl<A, C, P> DeleteCategoryService<A, C, P> {
    pub fn new(household_access_policy: A, category_repository: C, household_events_publisher: P) -> (r:
        Self)
        ensures
            r.household_access_policy == household_access_policy,
            r.category_repository == category_repository,
            r.household_events_publisher == household_events_publisher,
    {
        DeleteCategoryService { household_access_policy, category_repository, household_events_publisher }
    }
}

impl DeleteCategoryCommand {
    /// The requester must be a member; next, the category is deleted.
    pub fn on_access<M>(self, reply: Result<M, HouseholdAccessError>) -> (r: Result<
        DeleteCategoryAwaitingDeletion,
        DeleteCategoryError,
    >)
        ensures
            reply matches Err(e) ==> r == Err::<DeleteCategoryAwaitingDeletion, DeleteCategoryError>(
                DeleteCategoryError::HouseholdAccess(e),
            ),
            reply is Ok ==> r == Ok::<DeleteCategoryAwaitingDeletion, DeleteCategoryError>(
                DeleteCategoryAwaitingDeletion {
                    household_id: self.household_id,
                    category_id: self.category_id,
                },
            ),
    {
        match reply {
            Err(e) => Err(DeleteCategoryError::HouseholdAccess(e)),
            Ok(_) => Ok(
                DeleteCategoryAwaitingDeletion {
                    household_id: self.household_id,
                    category_id: self.category_id,
                },
            ),
        }
    }
}

/// Waiting for the category store to delete `category_id` of `household_id`.
#[derive(Debug, Clone, Copy, PartialEq, Eq, Structural)]
pub struct DeleteCategoryAwaitingDeletion {
    pub household_id: HouseholdId,
    pub category_id: CategoryId,
}

impl DeleteCategoryAwaitingDeletion {
    /// A missing category is reported as such; next, the changes are published.
    pub fn on_deleted(self, reply: Result<(), CategoryRepositoryError>) -> (r: Result<
        PendingHouseholdEvents,
        DeleteCategoryError,
    >)
        ensures
            reply == Err::<(), CategoryRepositoryError>(CategoryRepositoryError::CategoryNotFound) ==> r
                == Err::<PendingHouseholdEvents, DeleteCategoryError>(
                DeleteCategoryError::CategoryNotFound,
            ),
            reply matches Err(e) ==> (e != CategoryRepositoryError::CategoryNotFound ==> r == Err::<
                PendingHouseholdEvents,
                DeleteCategoryError,
            >(DeleteCategoryError::Internal(InternalError::Failed))),
            reply is Ok ==> (r matches Ok(p) && p.household_id == self.household_id && p.events@
                == category_change_events()),
    {
        match reply {
            Err(CategoryRepositoryError::CategoryNotFound) => Err(DeleteCategoryError::CategoryNotFound),
            Err(_) => Err(DeleteCategoryError::Internal(InternalError::Failed)),
            Ok(()) => Ok(
                PendingHouseholdEvents {
                    household_id: self.household_id,
                    events: vec![
                        HouseholdEvent::InventoryCategoriesChanged,
                        HouseholdEvent::InventoryItemsChanged,
                        HouseholdEvent::ShoppingListChanged,
                    ],
                },
            ),
        }
    }
}

} // verus!
