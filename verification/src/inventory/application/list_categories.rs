use vstd::prelude::*;

use crate::accounts::UserId;
use crate::households::domain::HouseholdId;
use crate::households::ports::HouseholdAccessError;
use crate::shared::InternalError;

verus! {

pub struct ListCategoriesCommand {
    pub requester_id: UserId,
    pub household_id: HouseholdId,
}

#[derive(Debug, Clone, Copy, PartialEq, Eq, Structural)]
pub enum ListCategoriesError {
    HouseholdAccess(HouseholdAccessError),
    Internal(InternalError),
}

/// Lists the categories of a household, for one of its members.
///
/// Stages: the command waits for the access policy's member check (`on_access`), then for
/// the categories (`on_categories`).
pub struct ListCategoriesService<A, C> {
    pub household_access_policy: A,
    pub category_repository: C,
}

impl<A, C> ListCategoriesService<A, C> {
    pub fn new(household_access_policy: A, category_repository: C) -> (r: Self)
        ensures
            r.household_access_policy == household_access_policy,
            r.category_repository == category_repository,
    {
        ListCategoriesService { household_access_policy, category_repository }
    }
}

impl ListCategoriesCommand {
    /// The requester must be a member; next, the categories are loaded.
    pub fn on_access<M>(self, reply: Result<M, HouseholdAccessError>) -> (r: Result<
        ListCategoriesAwaitingCategories,
        ListCategoriesError,
    >)
        ensures
            reply matches Err(e) ==> r == Err::<ListCategoriesAwaitingCategories, ListCategoriesError>(
                ListCategoriesError::HouseholdAccess(e),
            ),
            reply is Ok ==> r == Ok::<ListCategoriesAwaitingCategories, ListCategoriesError>(
                ListCategoriesAwaitingCategories { household_id: self.household_id },
            ),
    {
        match reply {
            Err(e) => Err(ListCategoriesError::HouseholdAccess(e)),
            Ok(_) => Ok(ListCategoriesAwaitingCategories { household_id: self.household_id }),
        }
    }
}

/// Waiting for the categories of `household_id`.
#[derive(Debug, Clone, Copy, PartialEq, Eq, Structural)]
pub struct ListCategoriesAwaitingCategories {
    pub household_id: HouseholdId,
}

impl ListCategoriesAwaitingCategories {
    /// The categories found are the answer.
    pub fn on_categories<T, E>(self, reply: Result<Vec<T>, E>) -> (r: Result<Vec<T>, ListCategoriesError>)
        ensures
            reply is Err ==> r == Err::<Vec<T>, ListCategoriesError>(
                ListCategoriesError::Internal(InternalError::Failed),
            ),
            reply matches Ok(categories) ==> r == Ok::<Vec<T>, ListCategoriesError>(categories),
    {
        match reply {
            Err(_) => Err(ListCategoriesError::Internal(InternalError::Failed)),
            Ok(categories) => Ok(categories),
        }
    }
}

} // verus!
