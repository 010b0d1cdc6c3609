use std::collections::HashMap;
use vstd::prelude::*;

use crate::households::broadcast_channel::{
    HouseholdChannel, HouseholdEventSubscription, max_channel_capacity,
};
use crate::households::domain::{HouseholdEvent, HouseholdId};
use crate::households::ports::{HouseholdEventPublisherError, HouseholdEventSubscriberError};

verus! {

broadcast use vstd::std_specs::hash::group_hash_axioms;

/// Household events delivered over one broadcast channel per household, opened the first
/// time the household is published to or followed, and kept from then on.
pub struct BroadcastHouseholdEvents {
    channels: HashMap<u128, HouseholdChannel>,
    capacity: usize,
}

impl BroadcastHouseholdEvents {
    #[verifier::type_invariant]
    spec fn capacity_is_valid(self) -> bool {
        0 < self.capacity <= max_channel_capacity()
    }

    /// The channel of each household that has one, by household id value.
    pub closed spec fn channels(self) -> Map<u128, HouseholdChannel> {
        self.channels@
    }

    /// The households that have a channel, by id value.
    pub open spec fn households_with_channel(self) -> Set<u128> {
        self.channels().dom()
    }

    /// The number of events a channel holds for a receiver that falls behind.
    pub closed spec fn channel_capacity(self) -> usize {
        self.capacity
    }

    /// No household has a channel yet.
    pub fn new(capacity: usize) -> (r: Self)
        requires
            0 < capacity <= max_channel_capacity(),
        ensures
            r.channels() == Map::<u128, HouseholdChannel>::empty(),
            r.channel_capacity() == capacity,
    {
        BroadcastHouseholdEvents { channels: HashMap::new(), capacity }
    }

    /// Takes the household's channel out of the registry; a household without one gets a
    /// new channel.
    fn take_channel(&mut self, household_id: HouseholdId) -> (r: HouseholdChannel)
        ensures
            old(self).channels().contains_key(household_id.value) ==> r == old(self).channels()[household_id.value],
            !old(self).channels().contains_key(household_id.value) ==> r.sent() == Seq::<
                HouseholdEvent,
            >::empty(),
            final(self).channels() == old(self).channels().remove(household_id.value),
            final(self).channel_capacity() == old(self).channel_capacity(),
    {
        proof {
            use_type_invariant(&*self);
        }
        let key = household_id.as_u128();
        let mut channels = HashMap::new();
        std::mem::swap(&mut channels, &mut self.channels);
        let taken = channels.remove(&key);
        self.channels = channels;
        match taken {
            Some(channel) => channel,
            None => {
                proof {
                    assert(self.channels@ =~= old(self).channels@.remove(key));
                }
                HouseholdChannel::open(self.capacity)
            },
        }
    }

    /// Puts a household's channel back.
    fn put_channel(&mut self, household_id: HouseholdId, channel: HouseholdChannel)
        ensures
            final(self).channels() == old(self).channels().insert(household_id.value, channel),
            final(self).channel_capacity() == old(self).channel_capacity(),
    {
        proof {
            use_type_invariant(&*self);
        }
        let mut channels = HashMap::new();
        std::mem::swap(&mut channels, &mut self.channels);
        channels.insert(household_id.as_u128(), channel);
        self.channels = channels;
    }

    /// Sends `event` on the household's channel, to everyone following the household; a
    /// household nobody follows drops it. The household's channel is kept, or opened if it
    /// had none, and no other channel changes.
    pub fn publish(&mut self, household_id: HouseholdId, event: HouseholdEvent) -> (r: Result<
        (),
        HouseholdEventPublisherError,
    >)
        ensures
            r is Ok,
            final(self).channels().contains_key(household_id.value),
            final(self).channels().remove(household_id.value) == old(self).channels().remove(
                household_id.value,
            ),
            old(self).channels().contains_key(household_id.value) ==> {
                &&& final(self).channels()[household_id.value].sender() == old(self).channels()[household_id.value].sender()
                &&& final(self).channels()[household_id.value].sent() == old(self).channels()[household_id.value].sent().push(event)
            },
            !old(self).channels().contains_key(household_id.value) ==> final(self).channels()[household_id.value].sent() == seq![event],
            final(self).channel_capacity() == old(self).channel_capacity(),
    {
        let mut channel = self.take_channel(household_id);
        channel.send(event);
        self.put_channel(household_id, channel);
        proof {
            assert(self.channels().remove(household_id.value) =~= old(self).channels().remove(
                household_id.value,
            ));
            assert(Seq::<HouseholdEvent>::empty().push(event) =~= seq![event]);
        }
        Ok(())
    }

    /// A subscription to the household's channel, which is kept, or opened if it had none;
    /// the subscription sees the events published to the household from now on.
    pub fn subscribe(&mut self, household_id: HouseholdId) -> (r: Result<
        HouseholdEventSubscription,
        HouseholdEventSubscriberError,
    >)
        ensures
            final(self).channels().contains_key(household_id.value),
            final(self).channels().remove(household_id.value) == old(self).channels().remove(
                household_id.value,
            ),
            old(self).channels().contains_key(household_id.value) ==> final(self).channels()[household_id.value] == old(self).channels()[household_id.value],
            !old(self).channels().contains_key(household_id.value) ==> final(self).channels()[household_id.value].sent() == Seq::<HouseholdEvent>::empty(),
            r matches Ok(subscription) && subscription.channel() == final(self).channels()[household_id.value].sender() && subscription.from() == final(self).channels()[household_id.value].sent().len(),
            final(self).channel_capacity() == old(self).channel_capacity(),
    {
        let channel = self.take_channel(household_id);
        let subscription = channel.subscribe();
        self.put_channel(household_id, channel);
        proof {
            assert(self.channels().remove(household_id.value) =~= old(self).channels().remove(
                household_id.value,
            ));
        }
        Ok(subscription)
    }
}

} // verus!
