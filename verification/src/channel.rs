//! The sending end of the player's channel.

use crate::player::{EventView, PlayerEvent};
use crossbeam_channel::Sender;
use vstd::prelude::*;

verus! {

/// The sending end of a channel, of the crate `crossbeam-channel`.
#[verifier::external_type_specification]
#[verifier::external_body]
#[verifier::reject_recursive_types(T)]
pub struct ExSender<T>(crossbeam_channel::Sender<T>);

/// The messages that were handed to `Sender::send` through this sending end, oldest first, whether
/// or not a receiver was left to take them.
pub uninterp spec fn events_offered(sender: Sender<PlayerEvent>) -> Seq<PlayerEvent>;

/// The messages that `Sender::send` has put into the channel through this sending end, oldest
/// first: of those offered, the ones that it did not give back.
pub uninterp spec fn events_accepted(sender: Sender<PlayerEvent>) -> Seq<PlayerEvent>;

/// How many messages the channel of this sending end holds at most; `None` for one without a limit.
pub uninterp spec fn channel_bound(sender: Sender<PlayerEvent>) -> Option<usize>;

/// Calls `crossbeam_channel::Sender::capacity`, which gives the limit that the channel was made
/// with, and `None` for an unbounded channel.
#[verifier::external_body]
fn channel_capacity(sender: &Sender<PlayerEvent>) -> (capacity: Option<usize>)
    ensures
        capacity == channel_bound(*sender),
{
    sender.capacity()
}

/// Calls `crossbeam_channel::Sender::send` on a channel without a limit, where it does not wait.
/// The message joins those offered through this end, and the limit stays. If the answer is `Ok` the
/// message is in the channel; if no receiver is left it is not, and comes back unchanged. Whether a
/// receiver is left is not said: that rests with the threads that hold the receivers.
#[verifier::external_body]
fn channel_send(sender: &mut Sender<PlayerEvent>, event: PlayerEvent) -> (sent: Result<
    (),
    PlayerEvent,
>)
    requires
        channel_bound(*old(sender)) is None,
    ensures
        events_offered(*final(sender)) == events_offered(*old(sender)).push(event),
        events_accepted(*final(sender)) == if sent is Ok {
            events_accepted(*old(sender)).push(event)
        } else {
            events_accepted(*old(sender))
        },
        channel_bound(*final(sender)) == channel_bound(*old(sender)),
        sent matches Err(returned) ==> returned == event,
{
    sender.send(event).map_err(|error| error.0)
}

/// The sending end of a player's channel that has room for every message, so that no sender ever
/// waits for the player.
pub struct PlayerSender {
    sender: Sender<PlayerEvent>,
}

impl PlayerSender {
    /// The channel has no limit.
    pub closed spec fn wf(self) -> bool {
        channel_bound(self.sender) is None
    }

    /// The channel's sending end.
    pub closed spec fn end(self) -> Sender<PlayerEvent> {
        self.sender
    }

    /// What was offered to the player through this end, oldest first.
    pub open spec fn offered(self) -> Seq<EventView> {
        events_offered(self.end()).map_values(|event: PlayerEvent| event@)
    }

    /// What the player's channel has taken through this end, oldest first.
    pub open spec fn accepted(self) -> Seq<EventView> {
        events_accepted(self.end()).map_values(|event: PlayerEvent| event@)
    }

    /// Takes the sending end of a channel without a limit; one of a bounded channel is given back.
    pub fn new(sender: Sender<PlayerEvent>) -> (made: Result<Self, Sender<PlayerEvent>>)
        ensures
            made is Ok <==> channel_bound(sender) is None,
            made matches Ok(player) ==> player.wf() && player.end() == sender,
            made matches Err(returned) ==> returned == sender,
    {
        match channel_capacity(&sender) {
            None => Ok(PlayerSender { sender }),
            Some(_) => Err(sender),
        }
    }

    /// Offers `event` to the player. It is taken, or it comes back because the player is gone.
    pub fn send(&mut self, event: PlayerEvent) -> (sent: Result<(), PlayerEvent>)
        requires
            old(self).wf(),
        ensures
            final(self).wf(),
            final(self).offered() == old(self).offered().push(event@),
            final(self).accepted() == if sent is Ok {
                old(self).accepted().push(event@)
            } else {
                old(self).accepted()
            },
            sent matches Err(returned) ==> returned == event,
    {
        let sent = channel_send(&mut self.sender, event);
        assert(self.offered() =~= old(self).offered().push(event@));
        assert(sent is Ok ==> self.accepted() =~= old(self).accepted().push(event@));
        sent
    }
}

} // verus!
