use vstd::prelude::*;

use crate::accounts::UserId;
use crate::households::domain::{
    Household, HouseholdId, HouseholdKind, HouseholdMember, HouseholdRole,
};
use crate::households::ports::HouseholdRepositoryError;
use crate::shared::{
    keyed_map, keys_unique, lemma_keyed_map_dom, lemma_keyed_map_index, lemma_keyed_map_push,
    lemma_keyed_map_remove, lemma_keyed_map_update,
};

verus! {

/// The key under which a household is stored.
pub open spec fn household_key() -> spec_fn(Household) -> HouseholdId {
    |h: Household| h.id
}

/// The key under which a membership is stored.
pub open spec fn member_key() -> spec_fn(HouseholdMember) -> (HouseholdId, UserId) {
    |m: HouseholdMember| (m.household_id, m.user_id)
}

/// What a household store holds: households by id, memberships by household and user.
pub struct HouseholdStore {
    pub households: Map<HouseholdId, Household>,
    pub members: Map<(HouseholdId, UserId), HouseholdMember>,
}

impl HouseholdStore {
    pub open spec fn empty() -> Self {
        HouseholdStore { households: Map::empty(), members: Map::empty() }
    }

    /// A household and its first member form a whole: the member belongs to that
    /// household and owns it.
    pub open spec fn valid_aggregate(household: Household, owner: HouseholdMember) -> bool {
        owner.household_id == household.id && owner.role == HouseholdRole::Owner
    }

    /// The household stored under `id` is a personal household of `user`.
    pub open spec fn is_personal_household_of(self, id: HouseholdId, user: UserId) -> bool {
        &&& self.households.contains_key(id)
        &&& self.households[id].kind == HouseholdKind::Personal
        &&& self.households[id].personal_owner_id == Some(user)
    }

    pub open spec fn has_personal_household(self, user: UserId) -> bool {
        exists|id: HouseholdId| #[trigger] self.is_personal_household_of(id, user)
    }

    /// Stores a household together with its owner's membership.
    pub open spec fn create_with_owner(self, household: Household, owner: HouseholdMember) -> Result<
        Self,
        HouseholdRepositoryError,
    > {
        if !Self::valid_aggregate(household, owner) {
            Err(HouseholdRepositoryError::InvalidAggregate)
        } else if household.kind == HouseholdKind::Personal && self.has_personal_household(
            owner.user_id,
        ) {
            Err(HouseholdRepositoryError::PersonalHouseholdAlreadyExists)
        } else if self.households.contains_key(household.id) {
            Err(HouseholdRepositoryError::HouseholdAlreadyExists)
        } else {
            Ok(
                HouseholdStore {
                    households: self.households.insert(household.id, household),
                    members: self.members.insert((owner.household_id, owner.user_id), owner),
                },
            )
        }
    }

    pub open spec fn find_by_id(self, id: HouseholdId) -> Option<Household> {
        if self.households.contains_key(id) {
            Some(self.households[id])
        } else {
            None
        }
    }

    pub open spec fn find_member(self, household_id: HouseholdId, user_id: UserId) -> Option<
        HouseholdMember,
    > {
        if self.members.contains_key((household_id, user_id)) {
            Some(self.members[(household_id, user_id)])
        } else {
            None
        }
    }

    /// Stores a new membership in an existing household.
    pub open spec fn add_member(self, member: HouseholdMember) -> Result<
        Self,
        HouseholdRepositoryError,
    > {
        if !self.households.contains_key(member.household_id) {
            Err(HouseholdRepositoryError::HouseholdNotFound)
        } else if self.members.contains_key((member.household_id, member.user_id)) {
            Err(HouseholdRepositoryError::MemberAlreadyExists)
        } else {
            Ok(
                HouseholdStore {
                    members: self.members.insert((member.household_id, member.user_id), member),
                    ..self
                },
            )
        }
    }

    pub open spec fn remove_member(self, household_id: HouseholdId, user_id: UserId) -> Result<
        Self,
        HouseholdRepositoryError,
    > {
        if !self.members.contains_key((household_id, user_id)) {
            Err(HouseholdRepositoryError::MemberNotFound)
        } else {
            Ok(HouseholdStore { members: self.members.remove((household_id, user_id)), ..self })
        }
    }

    /// Replaces a stored household by a new version of it.
    pub open spec fn update(self, household: Household) -> Result<Self, HouseholdRepositoryError> {
        if !self.households.contains_key(household.id) {
            Err(HouseholdRepositoryError::HouseholdNotFound)
        } else {
            Ok(
                HouseholdStore {
                    households: self.households.insert(household.id, household),
                    ..self
                },
            )
        }
    }
}

impl HouseholdStore {
    /// `listing` holds each membership of household `household_id` exactly once.
    pub open spec fn lists_members_of(self, household_id: HouseholdId, listing: Seq<HouseholdMember>) -> bool {
        &&& forall|i: int|
            0 <= i < listing.len() ==> {
                &&& (#[trigger] listing[i]).household_id == household_id
                &&& self.members.contains_key((household_id, listing[i].user_id))
                &&& self.members[(household_id, listing[i].user_id)] == listing[i]
            }
        &&& forall|user: UserId|
            #[trigger] self.members.contains_key((household_id, user)) ==> exists|i: int|
                0 <= i < listing.len() && listing[i].user_id == user
        &&& forall|i: int, j: int|
            0 <= i < listing.len() && 0 <= j < listing.len() && i != j ==> listing[i].user_id
                != listing[j].user_id
    }

    /// `listing` holds exactly once each stored household that `user` is a member of.
    pub open spec fn lists_households_of(self, user: UserId, listing: Seq<Household>) -> bool {
        &&& forall|i: int|
            0 <= i < listing.len() ==> {
                &&& self.households.contains_key((#[trigger] listing[i]).id)
                &&& self.households[listing[i].id] == listing[i]
                &&& self.members.contains_key((listing[i].id, user))
            }
        &&& forall|id: HouseholdId|
            #[trigger] self.members.contains_key((id, user)) && self.households.contains_key(id)
                ==> exists|i: int| 0 <= i < listing.len() && listing[i].id == id
        &&& forall|i: int, j: int|
            0 <= i < listing.len() && 0 <= j < listing.len() && i != j ==> listing[i].id
                != listing[j].id
    }
}

/// Checks that a household and its first member form a valid whole: the member belongs to
/// the household and owns it.
pub fn validate_aggregate(household: &Household, owner: &HouseholdMember) -> (r: Result<
    (),
    HouseholdRepositoryError,
>)
    ensures
        HouseholdStore::valid_aggregate(*household, *owner) <==> r is Ok,
        !HouseholdStore::valid_aggregate(*household, *owner) ==> r == Err::<
            (),
            HouseholdRepositoryError,
        >(HouseholdRepositoryError::InvalidAggregate),
{
    let owns = match owner.role {
        HouseholdRole::Owner => true,
        HouseholdRole::Member => false,
    };
    if owner.household_id == household.id && owns {
        Ok(())
    } else {
        Err(HouseholdRepositoryError::InvalidAggregate)
    }
}

/// A household store held in memory.
pub struct InMemoryHouseholdRepository {
    households: Vec<Household>,
    members: Vec<HouseholdMember>,
}

impl View for InMemoryHouseholdRepository {
    type V = HouseholdStore;

    closed spec fn view(&self) -> HouseholdStore {
        HouseholdStore {
            households: keyed_map(self.households@, household_key()),
            members: keyed_map(self.members@, member_key()),
        }
    }
}

impl InMemoryHouseholdRepository {
    #[verifier::type_invariant]
    spec fn keys_are_unique(self) -> bool {
        &&& keys_unique(self.households@, household_key())
        &&& keys_unique(self.members@, member_key())
    }

    pub fn new() -> (r: Self)
        ensures
            r@ == HouseholdStore::empty(),
    {
        let r = InMemoryHouseholdRepository { households: Vec::new(), members: Vec::new() };
        assert(r@.households =~= Map::empty());
        assert(r@.members =~= Map::empty());
        r
    }

}

impl core::default::Default for InMemoryHouseholdRepository {
    fn default() -> (r: Self)
        ensures
            r@ == HouseholdStore::empty(),
    {
        InMemoryHouseholdRepository::new()
    }
}

impl InMemoryHouseholdRepository {
    /// Position of the household stored under `id`.
    fn household_position(&self, id: HouseholdId) -> (r: Option<usize>)
        ensures
            match r {
                Some(i) => i < self.households@.len() && self.households@[i as int].id == id,
                None => !self@.households.contains_key(id),
            },
    {
        let mut i: usize = 0;
        while i < self.households.len()
            invariant
                i <= self.households@.len(),
                forall|j: int| 0 <= j < i ==> self.households@[j].id != id,
            decreases self.households@.len() - i,
        {
            if self.households[i].id == id {
                return Some(i);
            }
            i += 1;
        }
        proof {
            lemma_keyed_map_dom(self.households@, household_key(), id);
        }
        None
    }

    /// Position of the membership stored under `household_id` and `user_id`.
    fn member_position(&self, household_id: HouseholdId, user_id: UserId) -> (r: Option<usize>)
        ensures
            match r {
                Some(i) => i < self.members@.len() && self.members@[i as int].household_id
                    == household_id && self.members@[i as int].user_id == user_id,
                None => !self@.members.contains_key((household_id, user_id)),
            },
    {
        let mut i: usize = 0;
        while i < self.members.len()
            invariant
                i <= self.members@.len(),
                forall|j: int|
                    0 <= j < i ==> !(self.members@[j].household_id == household_id
                        && self.members@[j].user_id == user_id),
            decreases self.members@.len() - i,
        {
            if self.members[i].household_id == household_id && self.members[i].user_id == user_id {
                return Some(i);
            }
            i += 1;
        }
        proof {
            lemma_keyed_map_dom(self.members@, member_key(), (household_id, user_id));
        }
        None
    }

    pub fn find_by_id(&self, id: HouseholdId) -> (r: Option<Household>)
        ensures
            r == self@.find_by_id(id),
            r matches Some(h) ==> h.id == id,
    {
        proof {
            use_type_invariant(self);
        }
        match self.household_position(id) {
            Some(i) => {
                proof {
                    lemma_keyed_map_index(self.households@, household_key(), i as int);
                }
                Some(self.households[i].duplicate())
            },
            None => None,
        }
    }

    pub fn find_member(&self, household_id: HouseholdId, user_id: UserId) -> (r: Option<
        HouseholdMember,
    >)
        ensures
            r == self@.find_member(household_id, user_id),
            r matches Some(m) ==> m.household_id == household_id && m.user_id == user_id,
    {
        proof {
            use_type_invariant(self);
        }
        match self.member_position(household_id, user_id) {
            Some(i) => {
                proof {
                    lemma_keyed_map_index(self.members@, member_key(), i as int);
                }
                Some(self.members[i])
            },
            None => None,
        }
    }

    pub fn add_member(&mut self, member: HouseholdMember) -> (r: Result<(), HouseholdRepositoryError>)
        ensures
            match old(self)@.add_member(member) {
                Ok(store) => r is Ok && final(self)@ == store,
                Err(e) => r == Err::<(), HouseholdRepositoryError>(e) && final(self)@ == old(self)@,
            },
    {
        proof {
            use_type_invariant(&*self);
        }
        match self.household_position(member.household_id) {
            None => {
                return Err(HouseholdRepositoryError::HouseholdNotFound);
            },
            Some(i) => {
                proof {
                    lemma_keyed_map_index(self.households@, household_key(), i as int);
                }
            },
        }
        if let Some(i) = self.member_position(member.household_id, member.user_id) {
            proof {
                lemma_keyed_map_index(self.members@, member_key(), i as int);
            }
            return Err(HouseholdRepositoryError::MemberAlreadyExists);
        }
        proof {
            lemma_keyed_map_push(self.members@, member_key(), member);
        }
        let mut members = Vec::new();
        std::mem::swap(&mut members, &mut self.members);
        members.push(member);
        self.members = members;
        Ok(())
    }
}

impl InMemoryHouseholdRepository {
    pub fn remove_member(&mut self, household_id: HouseholdId, user_id: UserId) -> (r: Result<
        (),
        HouseholdRepositoryError,
    >)
        ensures
            match old(self)@.remove_member(household_id, user_id) {
                Ok(store) => r is Ok && final(self)@ == store,
                Err(e) => r == Err::<(), HouseholdRepositoryError>(e) && final(self)@ == old(self)@,
            },
    {
        proof {
            use_type_invariant(&*self);
        }
        match self.member_position(household_id, user_id) {
            None => Err(HouseholdRepositoryError::MemberNotFound),
            Some(i) => {
                proof {
                    lemma_keyed_map_index(self.members@, member_key(), i as int);
                    lemma_keyed_map_remove(self.members@, member_key(), i as int);
                }
                let mut members = Vec::new();
                std::mem::swap(&mut members, &mut self.members);
                members.remove(i);
                self.members = members;
                Ok(())
            },
        }
    }

    pub fn update(&mut self, household: &Household) -> (r: Result<(), HouseholdRepositoryError>)
        ensures
            match old(self)@.update(*household) {
                Ok(store) => r is Ok && final(self)@ == store,
                Err(e) => r == Err::<(), HouseholdRepositoryError>(e) && final(self)@ == old(self)@,
            },
    {
        proof {
            use_type_invariant(&*self);
        }
        match self.household_position(household.id) {
            None => Err(HouseholdRepositoryError::HouseholdNotFound),
            Some(i) => {
                proof {
                    lemma_keyed_map_index(self.households@, household_key(), i as int);
                    lemma_keyed_map_update(self.households@, household_key(), i as int, *household);
                }
                let mut households = Vec::new();
                std::mem::swap(&mut households, &mut self.households);
                households.set(i, household.duplicate());
                self.households = households;
                Ok(())
            },
        }
    }

    /// Finds a personal household that belongs to `user`.
    fn personal_household_position(&self, user: UserId) -> (r: Option<usize>)
        ensures
            match r {
                Some(i) => i < self.households@.len() && self@.is_personal_household_of(
                    self.households@[i as int].id,
                    user,
                ) && self@.households[self.households@[i as int].id] == self.households@[i as int],
                None => !self@.has_personal_household(user),
            },
    {
        proof {
            use_type_invariant(self);
        }
        let mut i: usize = 0;
        while i < self.households.len()
            invariant
                i <= self.households@.len(),
                keys_unique(self.households@, household_key()),
                forall|j: int|
                    0 <= j < i ==> !(self.households@[j].kind == HouseholdKind::Personal
                        && self.households@[j].personal_owner_id == Some(user)),
            decreases self.households@.len() - i,
        {
            let is_personal = match self.households[i].kind {
                HouseholdKind::Personal => true,
                HouseholdKind::Shared => false,
            };
            if is_personal && self.households[i].personal_owner_id == Some(user) {
                proof {
                    lemma_keyed_map_index(self.households@, household_key(), i as int);
                }
                return Some(i);
            }
            i += 1;
        }
        proof {
            assert forall|id: HouseholdId| !#[trigger] self@.is_personal_household_of(id, user) by {
                lemma_keyed_map_dom(self.households@, household_key(), id);
                if self@.households.contains_key(id) {
                    let j = choose|j: int|
                        0 <= j < self.households@.len() && household_key()(self.households@[j])
                            == id;
                    lemma_keyed_map_index(self.households@, household_key(), j);
                }
            }
        }
        None
    }

    /// Stores a new household together with the membership of its owner.
    pub fn create_with_owner(&mut self, household: &Household, owner: &HouseholdMember) -> (r:
        Result<(), HouseholdRepositoryError>)
        ensures
            match old(self)@.create_with_owner(*household, *owner) {
                Ok(store) => r is Ok && final(self)@ == store,
                Err(e) => r == Err::<(), HouseholdRepositoryError>(e) && final(self)@ == old(self)@,
            },
    {
        proof {
            use_type_invariant(&*self);
        }
        if let Err(e) = validate_aggregate(household, owner) {
            return Err(e);
        }
        let is_personal = match household.kind {
            HouseholdKind::Personal => true,
            HouseholdKind::Shared => false,
        };
        if is_personal {
            if let Some(i) = self.personal_household_position(owner.user_id) {
                return Err(HouseholdRepositoryError::PersonalHouseholdAlreadyExists);
            }
        }
        if let Some(i) = self.household_position(household.id) {
            proof {
                lemma_keyed_map_index(self.households@, household_key(), i as int);
            }
            return Err(HouseholdRepositoryError::HouseholdAlreadyExists);
        }
        proof {
            lemma_keyed_map_push(self.households@, household_key(), *household);
        }
        let mut households = Vec::new();
        std::mem::swap(&mut households, &mut self.households);
        households.push(household.duplicate());
        self.households = households;
        match self.member_position(owner.household_id, owner.user_id) {
            Some(i) => {
                proof {
                    lemma_keyed_map_update(self.members@, member_key(), i as int, *owner);
                }
                let mut members = Vec::new();
                std::mem::swap(&mut members, &mut self.members);
                members.set(i, *owner);
                self.members = members;
            },
            None => {
                proof {
                    lemma_keyed_map_push(self.members@, member_key(), *owner);
                }
                let mut members = Vec::new();
                std::mem::swap(&mut members, &mut self.members);
                members.push(*owner);
                self.members = members;
            },
        }
        Ok(())
    }
}

impl InMemoryHouseholdRepository {
    /// A personal household of `owner`. Where the store holds several, which one comes
    /// back is not fixed.
    pub fn find_personal_by_owner(&self, owner: UserId) -> (r: Option<Household>)
        ensures
            r is None <==> !self@.has_personal_household(owner),
            r matches Some(h) ==> self@.is_personal_household_of(h.id, owner)
                && self@.households[h.id] == h,
    {
        match self.personal_household_position(owner) {
            Some(i) => Some(self.households[i].duplicate()),
            None => None,
        }
    }

    /// All memberships of a household.
    pub fn find_members(&self, household_id: HouseholdId) -> (r: Vec<HouseholdMember>)
        ensures
            self@.lists_members_of(household_id, r@),
    {
        proof {
            use_type_invariant(self);
        }
        let mut result: Vec<HouseholdMember> = Vec::new();
        let ghost mut picked: Seq<int> = Seq::empty();
        let mut j: usize = 0;
        while j < self.members.len()
            invariant
                j <= self.members@.len(),
                keys_unique(self.members@, member_key()),
                picked.len() == result@.len(),
                forall|i: int|
                    0 <= i < picked.len() ==> 0 <= #[trigger] picked[i] < j && result@[i]
                        == self.members@[picked[i]] && result@[i].household_id == household_id,
                forall|a: int, b: int|
                    0 <= a < b < picked.len() ==> #[trigger] picked[a] < #[trigger] picked[b],
                forall|k: int|
                    0 <= k < j && #[trigger] self.members@[k].household_id == household_id
                        ==> exists|i: int| 0 <= i < picked.len() && picked[i] == k,
            decreases self.members@.len() - j,
        {
            if self.members[j].household_id == household_id {
                let ghost before = picked;
                proof {
                    picked = picked.push(j as int);
                }
                result.push(self.members[j]);
                proof {
                    assert forall|k: int|
                        0 <= k < j + 1 && #[trigger] self.members@[k].household_id == household_id
                            implies exists|i: int| 0 <= i < picked.len() && picked[i] == k by {
                        if k == j {
                            assert(picked[picked.len() - 1] == k);
                        } else {
                            let i = choose|i: int| 0 <= i < before.len() && before[i] == k;
                            assert(picked[i] == k);
                        }
                    }
                }
            }
            j += 1;
        }
        proof {
            let ms = self.members@;
            assert forall|i: int| 0 <= i < result@.len() implies {
                &&& (#[trigger] result@[i]).household_id == household_id
                &&& self@.members.contains_key((household_id, result@[i].user_id))
                &&& self@.members[(household_id, result@[i].user_id)] == result@[i]
            } by {
                lemma_keyed_map_index(ms, member_key(), picked[i]);
            }
            assert forall|user: UserId|
                #[trigger] self@.members.contains_key((household_id, user)) implies exists|i: int|
                0 <= i < result@.len() && result@[i].user_id == user by {
                lemma_keyed_map_dom(ms, member_key(), (household_id, user));
                let k = choose|k: int| 0 <= k < ms.len() && member_key()(ms[k]) == (household_id, user);
                assert(ms[k].household_id == household_id);
                let i = choose|i: int| 0 <= i < picked.len() && picked[i] == k;
                assert(result@[i].user_id == user);
            }
            assert forall|a: int, b: int|
                0 <= a < result@.len() && 0 <= b < result@.len() && a != b implies result@[a].user_id
                != result@[b].user_id by {
                assert(picked[a] != picked[b]) by {
                    if a < b {
                        assert(picked[a] < picked[b]);
                    } else {
                        assert(picked[b] < picked[a]);
                    }
                }
                assert(member_key()(ms[picked[a]]) != member_key()(ms[picked[b]]));
            }
        }
        result
    }
}

impl InMemoryHouseholdRepository {
    /// All stored households that `user` is a member of.
    pub fn find_for_user(&self, user: UserId) -> (r: Vec<Household>)
        ensures
            self@.lists_households_of(user, r@),
    {
        proof {
            use_type_invariant(self);
        }
        let mut result: Vec<Household> = Vec::new();
        let ghost mut picked: Seq<int> = Seq::empty();
        let mut j: usize = 0;
        while j < self.members.len()
            invariant
                j <= self.members@.len(),
                keys_unique(self.members@, member_key()),
                keys_unique(self.households@, household_key()),
                picked.len() == result@.len(),
                forall|i: int|
                    0 <= i < picked.len() ==> {
                        &&& 0 <= #[trigger] picked[i] < j
                        &&& self.members@[picked[i]].user_id == user
                        &&& result@[i].id == self.members@[picked[i]].household_id
                        &&& self@.households.contains_key(result@[i].id)
                        &&& self@.households[result@[i].id] == result@[i]
                    },
                forall|a: int, b: int|
                    0 <= a < b < picked.len() ==> #[trigger] picked[a] < #[trigger] picked[b],
                forall|k: int|
                    0 <= k < j && #[trigger] self.members@[k].user_id == user
                        && self@.households.contains_key(self.members@[k].household_id)
                        ==> exists|i: int| 0 <= i < picked.len() && picked[i] == k,
            decreases self.members@.len() - j,
        {
            if self.members[j].user_id == user {
                match self.household_position(self.members[j].household_id) {
                    Some(p) => {
                        proof {
                            lemma_keyed_map_index(self.households@, household_key(), p as int);
                        }
                        let ghost before = picked;
                        proof {
                            picked = picked.push(j as int);
                        }
                        result.push(self.households[p].duplicate());
                        proof {
                            assert forall|k: int|
                                0 <= k < j + 1 && #[trigger] self.members@[k].user_id == user
                                    && self@.households.contains_key(self.members@[k].household_id)
                                    implies exists|i: int| 0 <= i < picked.len() && picked[i] == k by {
                                if k == j {
                                    assert(picked[picked.len() - 1] == k);
                                } else {
                                    let i = choose|i: int| 0 <= i < before.len() && before[i] == k;
                                    assert(picked[i] == k);
                                }
                            }
                        }
                    },
                    None => {},
                }
            }
            j += 1;
        }
        proof {
            let ms = self.members@;
            assert forall|i: int| 0 <= i < result@.len() implies {
                &&& self@.households.contains_key((#[trigger] result@[i]).id)
                &&& self@.households[result@[i].id] == result@[i]
                &&& self@.members.contains_key((result@[i].id, user))
            } by {
                lemma_keyed_map_index(ms, member_key(), picked[i]);
            }
            assert forall|id: HouseholdId|
                #[trigger] self@.members.contains_key((id, user)) && self@.households.contains_key(id)
                implies exists|i: int| 0 <= i < result@.len() && result@[i].id == id by {
                lemma_keyed_map_dom(ms, member_key(), (id, user));
                let k = choose|k: int| 0 <= k < ms.len() && member_key()(ms[k]) == (id, user);
                assert(ms[k].user_id == user);
                let i = choose|i: int| 0 <= i < picked.len() && picked[i] == k;
                assert(result@[i].id == id);
            }
            assert forall|a: int, b: int|
                0 <= a < result@.len() && 0 <= b < result@.len() && a != b implies result@[a].id
                != result@[b].id by {
                assert(picked[a] != picked[b]) by {
                    if a < b {
                        assert(picked[a] < picked[b]);
                    } else {
                        assert(picked[b] < picked[a]);
                    }
                }
                assert(member_key()(ms[picked[a]]) != member_key()(ms[picked[b]]));
            }
        }
        result
    }
}

} // verus!
