use vstd::prelude::*;

use crate::accounts::UserId;
use crate::households::domain::HouseholdId;
use crate::households::ports::HouseholdAccessError;
use crate::inventory::domain::{Category, CategoryId, CategoryName};
use crate::inventory::ports::CategoryRepositoryError;
use crate::shared::{InternalError, current_timestamp, is_blank_text};

verus! {

pub struct CreateCategoryCommand {
    pub requester_id: UserId,
    pub household_id: HouseholdId,
    pub name: String,
}

#[derive(Debug, Clone, Copy, PartialEq, Eq, Structural)]
pub enum CreateCategoryError {
    InvalidName,
    CategoryAlreadyExists,
    HouseholdAccess(HouseholdAccessError),
    Internal(InternalError),
}

/// Creates a category in a household, for one of its members.
///
/// Stages: `begin` checks the name; the access policy's member check follows (`on_access`),
/// then the lookup of a category of the same name (`on_existing`), then the insertion of the
/// new category (`on_inserted`), whose id is the answer.
pub struct CreateCategoryService<A, C> {
    pub household_access_policy: A,
    pub category_repository: C,
}

impl<A, C> CreateCategoryService<A, C> {
    pub fn new(household_access_policy: A, category_repository: C) -> (r: Self)
        ensures
            r.household_access_policy == household_access_policy,
            r.category_repository == category_repository,
    {
        CreateCategoryService { household_access_policy, category_repository }
    }

    /// Checks the name; next, the requester's access is checked.
    pub fn begin(&self, command: CreateCategoryCommand) -> (r: Result<
        CreateCategoryAwaitingAccess,
        CreateCategoryError,
    >)
        ensures
            is_blank_text(command.name@) ==> r == Err::<CreateCategoryAwaitingAccess, CreateCategoryError>(
                CreateCategoryError::InvalidName,
            ),
            !is_blank_text(command.name@) ==> (r matches Ok(next) && next.household_id
                == command.household_id && next.requester_id == command.requester_id
                && next.name.value@ == command.name@),
    {
        match CategoryName::parse(command.name.as_str()) {
            Err(_) => Err(CreateCategoryError::InvalidName),
            Ok(name) => Ok(
                CreateCategoryAwaitingAccess {
                    requester_id: command.requester_id,
                    household_id: command.household_id,
                    name,
                },
            ),
        }
    }
}

/// Waiting for the access policy to check that `requester_id` is a member of `household_id`.
pub struct CreateCategoryAwaitingAccess {
    pub requester_id: UserId,
    pub household_id: HouseholdId,
    pub name: CategoryName,
}

impl CreateCategoryAwaitingAccess {
    /// The requester must be a member; next, a category named `name` is looked up.
    pub fn on_access<M>(self, reply: Result<M, HouseholdAccessError>) -> (r: Result<
        CreateCategoryAwaitingExisting,
        CreateCategoryError,
    >)
        ensures
            reply matches Err(e) ==> r == Err::<CreateCategoryAwaitingExisting, CreateCategoryError>(
                CreateCategoryError::HouseholdAccess(e),
            ),
            reply is Ok ==> r == Ok::<CreateCategoryAwaitingExisting, CreateCategoryError>(
                CreateCategoryAwaitingExisting { household_id: self.household_id, name: self.name },
            ),
    {
        match reply {
            Err(e) => Err(CreateCategoryError::HouseholdAccess(e)),
            Ok(_) => Ok(CreateCategoryAwaitingExisting { household_id: self.household_id, name: self.name }),
        }
    }
}

/// Waiting for a category of `household_id` named `name`.
pub struct CreateCategoryAwaitingExisting {
    pub household_id: HouseholdId,
    pub name: CategoryName,
}

impl CreateCategoryAwaitingExisting {
    /// The name must be free; next, the category with id `id`, created at `now`, is inserted.
    pub fn on_existing_at<T, E>(self, reply: Result<Option<T>, E>, id: CategoryId, now: i64) -> (r:
        Result<CreateCategoryAwaitingInsert, CreateCategoryError>)
        ensures
            reply is Err ==> r == Err::<CreateCategoryAwaitingInsert, CreateCategoryError>(
                CreateCategoryError::Internal(InternalError::Failed),
            ),
            reply matches Ok(Some(_)) ==> r == Err::<CreateCategoryAwaitingInsert, CreateCategoryError>(
                CreateCategoryError::CategoryAlreadyExists,
            ),
            reply == Ok::<Option<T>, E>(None) ==> r == Ok::<
                CreateCategoryAwaitingInsert,
                CreateCategoryError,
            >(
                CreateCategoryAwaitingInsert {
                    category: Category {
                        id,
                        household_id: self.household_id,
                        name: self.name,
                        created_at: now,
                        updated_at: now,
                    },
                },
            ),
    {
        match reply {
            Err(_) => Err(CreateCategoryError::Internal(InternalError::Failed)),
            Ok(Some(_)) => Err(CreateCategoryError::CategoryAlreadyExists),
            Ok(None) => Ok(
                CreateCategoryAwaitingInsert {
                    category: Category::new(id, self.household_id, self.name, now, now),
                },
            ),
        }
    }

    /// `on_existing_at`, with a fresh random id and the clock's time.
    pub fn on_existing<T, E>(self, reply: Result<Option<T>, E>) -> (r: Result<
        CreateCategoryAwaitingInsert,
        CreateCategoryError,
    >)
        ensures
            reply is Err ==> r == Err::<CreateCategoryAwaitingInsert, CreateCategoryError>(
                CreateCategoryError::Internal(InternalError::Failed),
            ),
            reply matches Ok(Some(_)) ==> r == Err::<CreateCategoryAwaitingInsert, CreateCategoryError>(
                CreateCategoryError::CategoryAlreadyExists,
            ),
            reply == Ok::<Option<T>, E>(None) ==> (r matches Ok(next) && next.category.household_id
                == self.household_id && next.category.name == self.name
                && next.category.created_at == next.category.updated_at),
    {
        let now = current_timestamp();
        let id = CategoryId::new();
        self.on_existing_at(reply, id, now)
    }
}

/// Waiting for the category store to insert `category`.
pub struct CreateCategoryAwaitingInsert {
    pub category: Category,
}

impl CreateCategoryAwaitingInsert {
    /// The new category's id is the answer; a name taken meanwhile is reported as such.
    pub fn on_inserted(self, reply: Result<(), CategoryRepositoryError>) -> (r: Result<
        CategoryId,
        CreateCategoryError,
    >)
        ensures
            reply == Err::<(), CategoryRepositoryError>(CategoryRepositoryError::CategoryAlreadyExists)
                ==> r == Err::<CategoryId, CreateCategoryError>(
                CreateCategoryError::CategoryAlreadyExists,
            ),
            reply matches Err(e) ==> (e != CategoryRepositoryError::CategoryAlreadyExists ==> r
                == Err::<CategoryId, CreateCategoryError>(
                CreateCategoryError::Internal(InternalError::Failed),
            )),
            reply is Ok ==> r == Ok::<CategoryId, CreateCategoryError>(self.category.id),
    {
        match reply {
            Err(CategoryRepositoryError::CategoryAlreadyExists) => Err(
                CreateCategoryError::CategoryAlreadyExists,
            ),
            Err(_) => Err(CreateCategoryError::Internal(InternalError::Failed)),
            Ok(()) => Ok(self.category.id),
        }
    }
}

} // verus!
