use tokio::sync::broadcast::{Receiver, Sender};
use vstd::prelude::*;

use crate::households::domain::HouseholdEvent;

verus! {

/// The sending half of a `tokio` broadcast channel.
#[verifier::external_type_specification]
#[verifier::external_body]
#[verifier::reject_recursive_types(T)]
pub struct ExBroadcastSender<T>(Sender<T>);

/// The receiving half of a `tokio` broadcast channel.
#[verifier::external_type_specification]
#[verifier::external_body]
#[verifier::reject_recursive_types(T)]
pub struct ExBroadcastReceiver<T>(Receiver<T>);

/// The largest number of slots a broadcast channel can be opened with.
pub open spec fn max_channel_capacity() -> usize {
    (usize::MAX / 2) as usize
}

/// Opens a channel through `tokio::sync::broadcast::channel` and keeps its sending half.
/// `channel` panics when the capacity is zero or above `usize::MAX / 2`, which `requires`
/// rules out. Verus sees nothing inside a sender, so nothing is stated of the result.
#[verifier::external_body]
fn open_channel(capacity: usize) -> (r: Sender<HouseholdEvent>)
    requires
        0 < capacity <= max_channel_capacity(),
{
    let (sender, _) = tokio::sync::broadcast::channel(capacity);
    sender
}

/// A new receiver of the channel of `sender`, through `Sender::subscribe`. `subscribe`
/// panics only once `usize::MAX / 4` receivers are alive, more than memory can hold;
/// nothing is stated of the result here: what it receives is stated by
/// `HouseholdChannel::subscribe`, the one caller.
#[verifier::external_body]
fn open_receiver(sender: &Sender<HouseholdEvent>) -> (r: Receiver<HouseholdEvent>) {
    sender.subscribe()
}

/// One household's broadcast channel, together with the events sent on it so far. The
/// record of sent events is changed by `send` alone.
pub struct HouseholdChannel {
    sender: Sender<HouseholdEvent>,
    sent: Ghost<Seq<HouseholdEvent>>,
}

impl HouseholdChannel {
    /// The sending half, which tells this channel from any other.
    pub closed spec fn sender(self) -> Sender<HouseholdEvent> {
        self.sender
    }

    /// The events sent on the channel so far, oldest first.
    pub closed spec fn sent(self) -> Seq<HouseholdEvent> {
        self.sent@
    }

    /// A new channel, on which nothing has been sent.
    pub fn open(capacity: usize) -> (r: Self)
        requires
            0 < capacity <= max_channel_capacity(),
        ensures
            r.sent() == Seq::<HouseholdEvent>::empty(),
    {
        HouseholdChannel { sender: open_channel(capacity), sent: Ghost(Seq::empty()) }
    }

    /// Sends `event` to every current receiver of the channel, through `Sender::send`.
    /// The contract claims that the event is sent on this same channel, after those sent
    /// before it. `send` fails only when the channel has no receiver, and that outcome is
    /// dropped, as a household nobody follows has nobody to tell.
    #[verifier::external_body]
    pub fn send(&mut self, event: HouseholdEvent)
        ensures
            final(self).sender() == old(self).sender(),
            final(self).sent() == old(self).sent().push(event),
    {
        let _ = self.sender.send(event);
    }

    /// A receiver of the events sent on this channel from now on.
    pub fn subscribe(&self) -> (r: HouseholdEventSubscription)
        ensures
            r.channel() == self.sender(),
            r.from() == self.sent().len(),
    {
        HouseholdEventSubscription {
            receiver: open_receiver(&self.sender),
            channel: Ghost(self.sender),
            from: Ghost(self.sent@.len()),
        }
    }
}

/// A receiver of one household's channel: it is handed the events sent on the channel
/// after it subscribed, oldest first, unless it falls more than the channel's capacity
/// behind, in which case it is told that it lagged.
pub struct HouseholdEventSubscription {
    receiver: Receiver<HouseholdEvent>,
    channel: Ghost<Sender<HouseholdEvent>>,
    from: Ghost<nat>,
}

impl HouseholdEventSubscription {
    /// The sending half of the channel subscribed to.
    pub closed spec fn channel(self) -> Sender<HouseholdEvent> {
        self.channel@
    }

    /// How many events had been sent on the channel when the subscription was taken.
    pub closed spec fn from(self) -> nat {
        self.from@
    }

    /// The events of `channel` sent since this subscription was taken.
    pub open spec fn events_in(self, channel: HouseholdChannel) -> Seq<HouseholdEvent> {
        channel.sent().skip(self.from() as int)
    }

    /// The receiving half, to read the events from.
    pub fn into_receiver(self) -> (r: Receiver<HouseholdEvent>) {
        self.receiver
    }
}

/// A subscription sees every event sent on its channel after it was taken: sending one
/// more event on the same channel adds exactly that event to what the subscription is
/// handed.
pub proof fn lemma_subscription_sees_later_events(
    subscription: HouseholdEventSubscription,
    before: HouseholdChannel,
    after: HouseholdChannel,
    event: HouseholdEvent,
)
    requires
        subscription.channel() == before.sender(),
        subscription.from() <= before.sent().len(),
        after.sender() == before.sender(),
        after.sent() == before.sent().push(event),
    ensures
        subscription.channel() == after.sender(),
        subscription.events_in(after) == subscription.events_in(before).push(event),
{
    assert(subscription.events_in(after) =~= subscription.events_in(before).push(event));
}

} // verus!
