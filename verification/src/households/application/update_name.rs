use vstd::prelude::*;

use crate::accounts::UserId;
use crate::households::application::pending_events::PendingHouseholdEvents;
use crate::households::domain::{
    Household, HouseholdEvent, HouseholdId, HouseholdKind, HouseholdMember, HouseholdName,
    HouseholdRole,
};
use crate::households::in_memory_repository::{HouseholdStore, InMemoryHouseholdRepository};
use crate::households::ports::HouseholdRepositoryError;
use crate::shared::{InternalError, current_timestamp, is_blank_text};

verus! {

pub struct RenameHouseholdCommand {
    pub requester_id: UserId,
    pub household_id: HouseholdId,
    pub name: String,
}

#[derive(Debug, Clone, Copy, PartialEq, Eq, Structural)]
pub enum RenameHouseholdError {
    InvalidName,
    Forbidden,
    NotFound,
    Internal(InternalError),
}

/// Renames a household: any member may rename a personal household, only the owner a
/// shared one.
///
/// Stages: `begin` checks the name; the household is loaded (`on_household`), then the
/// requester's membership (`on_requester`), then the renamed household is stored
/// (`on_updated`); last the household change is published.
pub struct RenameHouseholdService<H, P> {
    pub household_repository: H,
    pub household_events_publisher: P,
}

impl<H, P> RenameHouseholdService<H, P> {
    pub fn new(household_repository: H, household_events_publisher: P) -> (r: Self)
        ensures
            r.household_repository == household_repository,
            r.household_events_publisher == household_events_publisher,
    {
        RenameHouseholdService { household_repository, household_events_publisher }
    }

    /// Checks the new name; next, the household is loaded.
    pub fn begin(&self, command: RenameHouseholdCommand) -> (r: Result<
        RenameAwaitingHousehold,
        RenameHouseholdError,
    >)
        ensures
            is_blank_text(command.name@) ==> r == Err::<RenameAwaitingHousehold, RenameHouseholdError>(
                RenameHouseholdError::InvalidName,
            ),
            !is_blank_text(command.name@) ==> (r matches Ok(next) && next.requester_id
                == command.requester_id && next.household_id == command.household_id
                && next.name.value@ == command.name@),
    {
        match HouseholdName::parse(command.name.as_str()) {
            Err(_) => Err(RenameHouseholdError::InvalidName),
            Ok(name) => Ok(
                RenameAwaitingHousehold {
                    requester_id: command.requester_id,
                    household_id: command.household_id,
                    name,
                },
            ),
        }
    }
}

/// Waiting for the household `household_id`.
pub struct RenameAwaitingHousehold {
    pub requester_id: UserId,
    pub household_id: HouseholdId,
    pub name: HouseholdName,
}

impl RenameAwaitingHousehold {
    /// The household must exist; next, the requester's membership is loaded.
    pub fn on_household(self, reply: Result<Option<Household>, HouseholdRepositoryError>) -> (r:
        Result<RenameAwaitingRequester, RenameHouseholdError>)
        ensures
            reply is Err ==> r == Err::<RenameAwaitingRequester, RenameHouseholdError>(
                RenameHouseholdError::Internal(InternalError::Failed),
            ),
            reply == Ok::<Option<Household>, HouseholdRepositoryError>(None) ==> r == Err::<
                RenameAwaitingRequester,
                RenameHouseholdError,
            >(RenameHouseholdError::NotFound),
            reply matches Ok(Some(h)) ==> r == Ok::<RenameAwaitingRequester, RenameHouseholdError>(
                RenameAwaitingRequester {
                    requester_id: self.requester_id,
                    household_id: self.household_id,
                    name: self.name,
                    household: h,
                },
            ),
    {
        match reply {
            Err(_) => Err(RenameHouseholdError::Internal(InternalError::Failed)),
            Ok(None) => Err(RenameHouseholdError::NotFound),
            Ok(Some(household)) => Ok(
                RenameAwaitingRequester {
                    requester_id: self.requester_id,
                    household_id: self.household_id,
                    name: self.name,
                    household,
                },
            ),
        }
    }
}

/// Waiting for the membership of `requester_id` in the household.
pub struct RenameAwaitingRequester {
    pub requester_id: UserId,
    pub household_id: HouseholdId,
    pub name: HouseholdName,
    pub household: Household,
}

impl RenameAwaitingRequester {
    /// The requester must be a member, and the owner if the household is shared; next, the
    /// household renamed at `now` is stored.
    pub fn on_requester_at(
        self,
        reply: Result<Option<HouseholdMember>, HouseholdRepositoryError>,
        now: i64,
    ) -> (r: Result<RenameAwaitingUpdate, RenameHouseholdError>)
        ensures
            reply is Err ==> r == Err::<RenameAwaitingUpdate, RenameHouseholdError>(
                RenameHouseholdError::Internal(InternalError::Failed),
            ),
            reply == Ok::<Option<HouseholdMember>, HouseholdRepositoryError>(None) ==> r == Err::<
                RenameAwaitingUpdate,
                RenameHouseholdError,
            >(RenameHouseholdError::Forbidden),
            reply matches Ok(Some(m)) ==> (self.household.kind == HouseholdKind::Shared && m.role
                != HouseholdRole::Owner ==> r == Err::<RenameAwaitingUpdate, RenameHouseholdError>(
                RenameHouseholdError::Forbidden,
            )),
            reply matches Ok(Some(m)) ==> (!(self.household.kind == HouseholdKind::Shared && m.role
                != HouseholdRole::Owner) ==> r == Ok::<RenameAwaitingUpdate, RenameHouseholdError>(
                RenameAwaitingUpdate {
                    household_id: self.household_id,
                    household: Household { name: self.name, updated_at: now, ..self.household },
                },
            )),
    {
        match reply {
            Err(_) => Err(RenameHouseholdError::Internal(InternalError::Failed)),
            Ok(None) => Err(RenameHouseholdError::Forbidden),
            Ok(Some(requester)) => {
                let shared = match self.household.kind {
                    HouseholdKind::Shared => true,
                    HouseholdKind::Personal => false,
                };
                let owner = match requester.role {
                    HouseholdRole::Owner => true,
                    HouseholdRole::Member => false,
                };
                if shared && !owner {
                    return Err(RenameHouseholdError::Forbidden);
                }
                let mut household = self.household;
                household.rename(self.name, now);
                Ok(RenameAwaitingUpdate { household_id: self.household_id, household })
            },
        }
    }

    /// `on_requester_at`, with the renaming stamped by the clock.
    pub fn on_requester(self, reply: Result<Option<HouseholdMember>, HouseholdRepositoryError>) -> (r:
        Result<RenameAwaitingUpdate, RenameHouseholdError>)
        ensures
            reply is Err ==> r == Err::<RenameAwaitingUpdate, RenameHouseholdError>(
                RenameHouseholdError::Internal(InternalError::Failed),
            ),
            reply == Ok::<Option<HouseholdMember>, HouseholdRepositoryError>(None) ==> r == Err::<
                RenameAwaitingUpdate,
                RenameHouseholdError,
            >(RenameHouseholdError::Forbidden),
            reply matches Ok(Some(m)) ==> (self.household.kind == HouseholdKind::Shared && m.role
                != HouseholdRole::Owner ==> r == Err::<RenameAwaitingUpdate, RenameHouseholdError>(
                RenameHouseholdError::Forbidden,
            )),
            reply matches Ok(Some(m)) ==> (!(self.household.kind == HouseholdKind::Shared && m.role
                != HouseholdRole::Owner) ==> (r matches Ok(next) && next.household_id
                == self.household_id && next.household == Household {
                name: self.name,
                updated_at: next.household.updated_at,
                ..self.household
            })),
    {
        let now = current_timestamp();
        self.on_requester_at(reply, now)
    }
}

/// Waiting for the household store to store `household`.
pub struct RenameAwaitingUpdate {
    pub household_id: HouseholdId,
    pub household: Household,
}

impl RenameAwaitingUpdate {
    /// A household that vanished meanwhile is reported as not found; next, the household
    /// change is published.
    pub fn on_updated(self, reply: Result<(), HouseholdRepositoryError>) -> (r: Result<
        PendingHouseholdEvents,
        RenameHouseholdError,
    >)
        ensures
            reply == Err::<(), HouseholdRepositoryError>(HouseholdRepositoryError::HouseholdNotFound)
                ==> r == Err::<PendingHouseholdEvents, RenameHouseholdError>(
                RenameHouseholdError::NotFound,
            ),
            reply matches Err(e) ==> (e != HouseholdRepositoryError::HouseholdNotFound ==> r
                == Err::<PendingHouseholdEvents, RenameHouseholdError>(
                RenameHouseholdError::Internal(InternalError::Failed),
            )),
            reply is Ok ==> (r matches Ok(p) && p.household_id == self.household_id && p.events@
                == seq![HouseholdEvent::HouseholdChanged]),
    {
        match reply {
            Err(HouseholdRepositoryError::HouseholdNotFound) => Err(RenameHouseholdError::NotFound),
            Err(_) => Err(RenameHouseholdError::Internal(InternalError::Failed)),
            Ok(()) => Ok(
                PendingHouseholdEvents {
                    household_id: self.household_id,
                    events: vec![HouseholdEvent::HouseholdChanged],
                },
            ),
        }
    }
}

/// Whether renaming a household as `command` asks may go ahead, given what the store
/// holds: the name must not be blank, the household must exist, the requester must be a
/// member, and a shared household is renamed by its owner only.
pub open spec fn rename_outcome(store: HouseholdStore, command: RenameHouseholdCommand) -> Result<
    (),
    RenameHouseholdError,
> {
    let requester = (command.household_id, command.requester_id);
    if is_blank_text(command.name@) {
        Err(RenameHouseholdError::InvalidName)
    } else if !store.households.contains_key(command.household_id) {
        Err(RenameHouseholdError::NotFound)
    } else if !store.members.contains_key(requester) {
        Err(RenameHouseholdError::Forbidden)
    } else if store.households[command.household_id].kind == HouseholdKind::Shared
        && store.members[requester].role != HouseholdRole::Owner {
        Err(RenameHouseholdError::Forbidden)
    } else {
        Ok(())
    }
}

/// `after` is `before` with the household `id` renamed to `name` at `now`.
pub open spec fn renamed_in(before: HouseholdStore, after: HouseholdStore, id: HouseholdId, name: Seq<char>, now: i64) -> bool {
    &&& before.households.contains_key(id)
    &&& after.members == before.members
    &&& after.households == before.households.insert(id, after.households[id])
    &&& after.households[id].name.value@ == name
    &&& after.households[id] == (Household {
        name: after.households[id].name,
        updated_at: now,
        ..before.households[id]
    })
}

impl<H, P> RenameHouseholdService<H, P> {
    /// Runs the use case against an in-memory household store, with the change made at
    /// `now`; the events to publish come back.
    pub fn execute_in_memory(
        &self,
        households: &mut InMemoryHouseholdRepository,
        command: RenameHouseholdCommand,
        now: i64,
    ) -> (r: Result<PendingHouseholdEvents, RenameHouseholdError>)
        ensures
            match rename_outcome(old(households)@, command) {
                Ok(()) => {
                    &&& r matches Ok(p) && p.household_id == command.household_id && p.events@
                        == seq![HouseholdEvent::HouseholdChanged]
                    &&& renamed_in(
                        old(households)@,
                        final(households)@,
                        command.household_id,
                        command.name@,
                        now,
                    )
                },
                Err(e) => r == Err::<PendingHouseholdEvents, RenameHouseholdError>(e)
                    && final(households)@ == old(households)@,
            },
    {
        let household_id = command.household_id;
        let requester_id = command.requester_id;
        let stage = match self.begin(command) {
            Ok(stage) => stage,
            Err(e) => return Err(e),
        };
        let stage = match stage.on_household(Ok(households.find_by_id(household_id))) {
            Ok(stage) => stage,
            Err(e) => return Err(e),
        };
        let stage = match stage.on_requester_at(Ok(households.find_member(household_id, requester_id)), now) {
            Ok(stage) => stage,
            Err(e) => return Err(e),
        };
        let updated = households.update(&stage.household);
        proof {
            if updated is Ok {
                assert(households@.households =~= old(households)@.households.insert(
                    household_id,
                    households@.households[household_id],
                ));
            }
        }
        stage.on_updated(updated)
    }
}

} // verus!
