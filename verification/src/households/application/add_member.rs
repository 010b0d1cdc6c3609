use vstd::prelude::*;

use crate::accounts::{Email, User, UserId, find_user_by_email, is_email_text, user_with_email};
use crate::households::application::pending_events::PendingHouseholdEvents;
use crate::households::domain::{
    Household, HouseholdEvent, HouseholdId, HouseholdKind, HouseholdMember, HouseholdRole,
};
use crate::households::in_memory_repository::{HouseholdStore, InMemoryHouseholdRepository};
use crate::households::ports::HouseholdRepositoryError;
use crate::shared::{InternalError, current_timestamp};

verus! {

pub struct AddHouseholdMemberCommand {
    pub requester_id: UserId,
    pub household_id: HouseholdId,
    pub member_email: String,
}

#[derive(Debug, Clone, Copy, PartialEq, Eq, Structural)]
pub enum AddHouseholdMemberError {
    InvalidEmail,
    HouseholdNotFound,
    Forbidden,
    PersonalHousehold,
    UserNotFound,
    MemberAlreadyExists,
    Internal(InternalError),
}

/// Adds the user with a given e-mail address to a shared household, on behalf of the
/// household's owner.
///
/// The use case runs as a sequence of stages. Each stage names the one call its caller
/// makes next (on the household store, the user directory or the event publisher) and
/// takes the answer in a transition that either fails the use case or gives the next
/// stage: `begin`, then `on_household`, `on_requester`, `on_user`, `on_existing_member`,
/// `on_added`, and last the events to publish.
pub struct AddHouseholdMemberService<H, U, P> {
    pub household_repository: H,
    pub user_repository: U,
    pub household_events_publisher: P,
}

impl<H, U, P> AddHouseholdMemberService<H, U, P> {
    pub fn new(household_repository: H, user_repository: U, household_events_publisher: P) -> (r:
        Self)
        ensures
            r.household_repository == household_repository,
            r.user_repository == user_repository,
            r.household_events_publisher == household_events_publisher,
    {
        AddHouseholdMemberService { household_repository, user_repository, household_events_publisher }
    }

    /// Checks the e-mail address; next, the household is loaded.
    pub fn begin(&self, command: AddHouseholdMemberCommand) -> (r: Result<
        AddMemberAwaitingHousehold,
        AddHouseholdMemberError,
    >)
        ensures
            !is_email_text(command.member_email@) ==> r == Err::<
                AddMemberAwaitingHousehold,
                AddHouseholdMemberError,
            >(AddHouseholdMemberError::InvalidEmail),
            is_email_text(command.member_email@) ==> (r matches Ok(next) && next.requester_id
                == command.requester_id && next.household_id == command.household_id
                && next.email@ == command.member_email@),
    {
        match Email::parse(command.member_email.as_str()) {
            Err(_) => Err(AddHouseholdMemberError::InvalidEmail),
            Ok(email) => Ok(
                AddMemberAwaitingHousehold {
                    requester_id: command.requester_id,
                    household_id: command.household_id,
                    email,
                },
            ),
        }
    }
}

/// Waiting for the household `household_id` from the household store.
pub struct AddMemberAwaitingHousehold {
    pub requester_id: UserId,
    pub household_id: HouseholdId,
    pub email: Email,
}

impl AddMemberAwaitingHousehold {
    /// Members can only be added to a shared household that exists; next, the requester's
    /// membership is loaded.
    pub fn on_household(self, reply: Result<Option<Household>, HouseholdRepositoryError>) -> (r:
        Result<AddMemberAwaitingRequester, AddHouseholdMemberError>)
        ensures
            reply is Err ==> r == Err::<AddMemberAwaitingRequester, AddHouseholdMemberError>(
                AddHouseholdMemberError::Internal(InternalError::Failed),
            ),
            reply == Ok::<Option<Household>, HouseholdRepositoryError>(None) ==> r == Err::<
                AddMemberAwaitingRequester,
                AddHouseholdMemberError,
            >(AddHouseholdMemberError::HouseholdNotFound),
            reply matches Ok(Some(h)) ==> (h.kind == HouseholdKind::Personal ==> r == Err::<
                AddMemberAwaitingRequester,
                AddHouseholdMemberError,
            >(AddHouseholdMemberError::PersonalHousehold)),
            reply matches Ok(Some(h)) ==> (h.kind == HouseholdKind::Shared ==> r == Ok::<
                AddMemberAwaitingRequester,
                AddHouseholdMemberError,
            >(
                AddMemberAwaitingRequester {
                    requester_id: self.requester_id,
                    household_id: self.household_id,
                    email: self.email,
                },
            )),
    {
        match reply {
            Err(_) => Err(AddHouseholdMemberError::Internal(InternalError::Failed)),
            Ok(None) => Err(AddHouseholdMemberError::HouseholdNotFound),
            Ok(Some(household)) => match household.kind {
                HouseholdKind::Personal => Err(AddHouseholdMemberError::PersonalHousehold),
                HouseholdKind::Shared => Ok(
                    AddMemberAwaitingRequester {
                        requester_id: self.requester_id,
                        household_id: self.household_id,
                        email: self.email,
                    },
                ),
            },
        }
    }
}

/// Waiting for the membership of `requester_id` in `household_id`.
pub struct AddMemberAwaitingRequester {
    pub requester_id: UserId,
    pub household_id: HouseholdId,
    pub email: Email,
}

impl AddMemberAwaitingRequester {
    /// Only the household's owner may add members; next, the user is looked up by e-mail.
    pub fn on_requester(self, reply: Result<Option<HouseholdMember>, HouseholdRepositoryError>) -> (r:
        Result<AddMemberAwaitingUser, AddHouseholdMemberError>)
        ensures
            reply is Err ==> r == Err::<AddMemberAwaitingUser, AddHouseholdMemberError>(
                AddHouseholdMemberError::Internal(InternalError::Failed),
            ),
            reply == Ok::<Option<HouseholdMember>, HouseholdRepositoryError>(None) ==> r == Err::<
                AddMemberAwaitingUser,
                AddHouseholdMemberError,
            >(AddHouseholdMemberError::Forbidden),
            reply matches Ok(Some(m)) ==> (m.role == HouseholdRole::Member ==> r == Err::<
                AddMemberAwaitingUser,
                AddHouseholdMemberError,
            >(AddHouseholdMemberError::Forbidden)),
            reply matches Ok(Some(m)) ==> (m.role == HouseholdRole::Owner ==> r == Ok::<
                AddMemberAwaitingUser,
                AddHouseholdMemberError,
            >(AddMemberAwaitingUser { household_id: self.household_id, email: self.email })),
    {
        match reply {
            Err(_) => Err(AddHouseholdMemberError::Internal(InternalError::Failed)),
            Ok(None) => Err(AddHouseholdMemberError::Forbidden),
            Ok(Some(requester)) => match requester.role {
                HouseholdRole::Member => Err(AddHouseholdMemberError::Forbidden),
                HouseholdRole::Owner => Ok(
                    AddMemberAwaitingUser { household_id: self.household_id, email: self.email },
                ),
            },
        }
    }
}

/// Waiting for the user with e-mail address `email` from the user directory.
pub struct AddMemberAwaitingUser {
    pub household_id: HouseholdId,
    pub email: Email,
}

impl AddMemberAwaitingUser {
    /// The user must exist; next, their current membership in the household is looked up.
    pub fn on_user<E>(self, reply: Result<Option<User>, E>) -> (r: Result<
        AddMemberAwaitingMembership,
        AddHouseholdMemberError,
    >)
        ensures
            reply is Err ==> r == Err::<AddMemberAwaitingMembership, AddHouseholdMemberError>(
                AddHouseholdMemberError::Internal(InternalError::Failed),
            ),
            reply == Ok::<Option<User>, E>(None) ==> r == Err::<
                AddMemberAwaitingMembership,
                AddHouseholdMemberError,
            >(AddHouseholdMemberError::UserNotFound),
            reply matches Ok(Some(u)) ==> r == Ok::<
                AddMemberAwaitingMembership,
                AddHouseholdMemberError,
            >(AddMemberAwaitingMembership { household_id: self.household_id, user_id: u.id }),
    {
        match reply {
            Err(_) => Err(AddHouseholdMemberError::Internal(InternalError::Failed)),
            Ok(None) => Err(AddHouseholdMemberError::UserNotFound),
            Ok(Some(user)) => Ok(
                AddMemberAwaitingMembership { household_id: self.household_id, user_id: user.id },
            ),
        }
    }
}

/// Waiting for the membership of `user_id` in `household_id`.
#[derive(Debug, Clone, Copy, PartialEq, Eq, Structural)]
pub struct AddMemberAwaitingMembership {
    pub household_id: HouseholdId,
    pub user_id: UserId,
}

impl AddMemberAwaitingMembership {
    /// The user must not be a member yet; next, the new membership, with the role of a plain
    /// member and created at `now`, is stored.
    pub fn on_existing_member_at(
        self,
        reply: Result<Option<HouseholdMember>, HouseholdRepositoryError>,
        now: i64,
    ) -> (r: Result<AddMemberAwaitingInsert, AddHouseholdMemberError>)
        ensures
            reply is Err ==> r == Err::<AddMemberAwaitingInsert, AddHouseholdMemberError>(
                AddHouseholdMemberError::Internal(InternalError::Failed),
            ),
            reply matches Ok(Some(_)) ==> r == Err::<AddMemberAwaitingInsert, AddHouseholdMemberError>(
                AddHouseholdMemberError::MemberAlreadyExists,
            ),
            reply == Ok::<Option<HouseholdMember>, HouseholdRepositoryError>(None) ==> r == Ok::<
                AddMemberAwaitingInsert,
                AddHouseholdMemberError,
            >(
                AddMemberAwaitingInsert {
                    member: HouseholdMember {
                        household_id: self.household_id,
                        user_id: self.user_id,
                        role: HouseholdRole::Member,
                        created_at: now,
                    },
                },
            ),
    {
        match reply {
            Err(_) => Err(AddHouseholdMemberError::Internal(InternalError::Failed)),
            Ok(Some(_)) => Err(AddHouseholdMemberError::MemberAlreadyExists),
            Ok(None) => Ok(
                AddMemberAwaitingInsert {
                    member: HouseholdMember::new(
                        self.household_id,
                        self.user_id,
                        HouseholdRole::Member,
                        now,
                    ),
                },
            ),
        }
    }

    /// `on_existing_member_at`, with the membership stamped by the clock.
    pub fn on_existing_member(self, reply: Result<Option<HouseholdMember>, HouseholdRepositoryError>) -> (r:
        Result<AddMemberAwaitingInsert, AddHouseholdMemberError>)
        ensures
            reply is Err ==> r == Err::<AddMemberAwaitingInsert, AddHouseholdMemberError>(
                AddHouseholdMemberError::Internal(InternalError::Failed),
            ),
            reply matches Ok(Some(_)) ==> r == Err::<AddMemberAwaitingInsert, AddHouseholdMemberError>(
                AddHouseholdMemberError::MemberAlreadyExists,
            ),
            reply == Ok::<Option<HouseholdMember>, HouseholdRepositoryError>(None) ==> (r matches Ok(
                next,
            ) && next.member.household_id == self.household_id && next.member.user_id == self.user_id
                && next.member.role == HouseholdRole::Member),
    {
        let now = current_timestamp();
        self.on_existing_member_at(reply, now)
    }
}

/// Waiting for the household store to add `member`.
#[derive(Debug, Clone, Copy, PartialEq, Eq, Structural)]
pub struct AddMemberAwaitingInsert {
    pub member: HouseholdMember,
}

impl AddMemberAwaitingInsert {
    /// A store that already holds the membership is reported as such; next, the household
    /// change is published.
    pub fn on_added(self, reply: Result<(), HouseholdRepositoryError>) -> (r: Result<
        PendingHouseholdEvents,
        AddHouseholdMemberError,
    >)
        ensures
            reply == Err::<(), HouseholdRepositoryError>(HouseholdRepositoryError::MemberAlreadyExists)
                ==> r == Err::<PendingHouseholdEvents, AddHouseholdMemberError>(
                AddHouseholdMemberError::MemberAlreadyExists,
            ),
            reply matches Err(e) ==> (e != HouseholdRepositoryError::MemberAlreadyExists ==> r
                == Err::<PendingHouseholdEvents, AddHouseholdMemberError>(
                AddHouseholdMemberError::Internal(InternalError::Failed),
            )),
            reply is Ok ==> (r matches Ok(p) && p.household_id == self.member.household_id
                && p.events@ == seq![HouseholdEvent::HouseholdChanged]),
    {
        match reply {
            Err(HouseholdRepositoryError::MemberAlreadyExists) => Err(
                AddHouseholdMemberError::MemberAlreadyExists,
            ),
            Err(_) => Err(AddHouseholdMemberError::Internal(InternalError::Failed)),
            Ok(()) => Ok(
                PendingHouseholdEvents {
                    household_id: self.member.household_id,
                    events: vec![HouseholdEvent::HouseholdChanged],
                },
            ),
        }
    }
}

/// What adding the user with e-mail address `command.member_email` to a household does,
/// given what the household store and the user accounts hold: the membership that is
/// added, created at `now`, or why none is.
pub open spec fn add_member_outcome(
    store: HouseholdStore,
    users: Seq<User>,
    command: AddHouseholdMemberCommand,
    now: i64,
) -> Result<HouseholdMember, AddHouseholdMemberError> {
    let household_id = command.household_id;
    let requester = (household_id, command.requester_id);
    if !is_email_text(command.member_email@) {
        Err(AddHouseholdMemberError::InvalidEmail)
    } else if !store.households.contains_key(household_id) {
        Err(AddHouseholdMemberError::HouseholdNotFound)
    } else if store.households[household_id].kind == HouseholdKind::Personal {
        Err(AddHouseholdMemberError::PersonalHousehold)
    } else if !store.members.contains_key(requester) || store.members[requester].role
        != HouseholdRole::Owner {
        Err(AddHouseholdMemberError::Forbidden)
    } else {
        match user_with_email(users, command.member_email@) {
            None => Err(AddHouseholdMemberError::UserNotFound),
            Some(user) => if store.members.contains_key((household_id, user.id)) {
                Err(AddHouseholdMemberError::MemberAlreadyExists)
            } else {
                Ok(
                    HouseholdMember {
                        household_id,
                        user_id: user.id,
                        role: HouseholdRole::Member,
                        created_at: now,
                    },
                )
            },
        }
    }
}

impl<H, U, P> AddHouseholdMemberService<H, U, P> {
    /// Runs the use case against an in-memory household store and a list of user accounts,
    /// with the membership created at `now`; the events to publish come back.
    pub fn execute_in_memory(
        &self,
        households: &mut InMemoryHouseholdRepository,
        users: &Vec<User>,
        command: AddHouseholdMemberCommand,
        now: i64,
    ) -> (r: Result<PendingHouseholdEvents, AddHouseholdMemberError>)
        ensures
            match add_member_outcome(old(households)@, users@, command, now) {
                Ok(member) => {
                    &&& r matches Ok(p) && p.household_id == command.household_id && p.events@
                        == seq![HouseholdEvent::HouseholdChanged]
                    &&& old(households)@.add_member(member) == Ok::<
                        HouseholdStore,
                        HouseholdRepositoryError,
                    >(final(households)@)
                },
                Err(e) => r == Err::<PendingHouseholdEvents, AddHouseholdMemberError>(e)
                    && final(households)@ == old(households)@,
            },
    {
        let household_id = command.household_id;
        let requester_id = command.requester_id;
        let stage = match self.begin(command) {
            Ok(stage) => stage,
            Err(e) => return Err(e),
        };
        let stage = match stage.on_household(Ok(households.find_by_id(household_id))) {
            Ok(stage) => stage,
            Err(e) => return Err(e),
        };
        let stage = match stage.on_requester(Ok(households.find_member(household_id, requester_id))) {
            Ok(stage) => stage,
            Err(e) => return Err(e),
        };
        let user = find_user_by_email(users, stage.email.as_str());
        let stage = match stage.on_user(Ok::<Option<User>, ()>(user)) {
            Ok(stage) => stage,
            Err(e) => return Err(e),
        };
        let user_id = stage.user_id;
        let stage = match stage.on_existing_member_at(Ok(households.find_member(household_id, user_id)), now) {
            Ok(stage) => stage,
            Err(e) => return Err(e),
        };
        let added = households.add_member(stage.member);
        stage.on_added(added)
    }
}

} // verus!
