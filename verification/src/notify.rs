//! Per-account notification channels for sharing events.
use vstd::prelude::*;
use std::collections::HashMap;
use tokio::sync::broadcast::{Receiver, Sender};

verus! {

broadcast use vstd::std_specs::hash::group_hash_axioms;

/// An event about sharing, sent to the accounts it concerns.
#[derive(Clone, Debug, PartialEq)]
pub enum SharingEvent {
    NewShareRequest {
        request_id: u128,
        filesystem_id: u128,
        entry_name: String,
        sender_username: String,
        access_level: String,
    },
    ShareRequestAccepted { request_id: u128, filesystem_id: u128, recipient_username: String },
    ShareRequestDeclined { request_id: u128, recipient_username: String },
    ShareRequestCancelled { request_id: u128 },
    PermissionRevoked { permission_id: u128, filesystem_id: u128 },
}

#[verifier::external_type_specification]
#[verifier::external_body]
#[verifier::reject_recursive_types(T)]
pub struct ExBroadcastSender<T>(Sender<T>);

#[verifier::external_type_specification]
#[verifier::external_body]
#[verifier::reject_recursive_types(T)]
pub struct ExBroadcastReceiver<T>(Receiver<T>);

/// The capacity a broadcast channel was opened with, named by its sender: the argument
/// handed to `tokio::sync::broadcast::channel` (tokio's buffer rounds it up to a power of two).
pub uninterp spec fn channel_capacity(tx: Sender<SharingEvent>) -> usize;

/// The channel a broadcast receiver listens to, named by the sender it was subscribed from.
pub uninterp spec fn receiver_channel(rx: Receiver<SharingEvent>) -> Sender<SharingEvent>;

/// Calls `tokio::sync::broadcast::channel(capacity)` and keeps the sending half.
/// Claimed: the channel was opened with `capacity`. `requires` leaves out the capacities
/// for which `channel` panics (0 and above `usize::MAX / 2`).
#[verifier::external_body]
fn open_channel(capacity: usize) -> (tx: Sender<SharingEvent>)
    requires
        0 < capacity <= usize::MAX / 2,
    ensures
        channel_capacity(tx) == capacity,
{
    tokio::sync::broadcast::channel(capacity).0
}

/// Calls `Sender::subscribe`. Claimed: the receiver listens to the channel of `tx`, on
/// whose shared state tokio builds it. (`subscribe` panics only once `usize::MAX >> 2`
/// receivers of one channel are alive, which no memory can hold.)
#[verifier::external_body]
fn subscribe_channel(tx: &Sender<SharingEvent>) -> (rx: Receiver<SharingEvent>)
    ensures
        receiver_channel(rx) == *tx,
{
    tx.subscribe()
}

/// Calls `Sender::send` and drops its result, which only says whether anybody listened.
/// Nothing is claimed: what the receivers get is runtime state of the channel.
#[verifier::external_body]
fn send_channel(tx: &Sender<SharingEvent>, event: SharingEvent) {
    let _ = tx.send(event);
}

/// Calls `Sender::receiver_count`. Nothing is claimed: the count is runtime state
/// that other threads change.
#[verifier::external_body]
fn channel_receivers(tx: &Sender<SharingEvent>) -> usize {
    tx.receiver_count()
}

/// Room of a channel: events that a slow listener may fall behind by.
pub const CHANNEL_CAPACITY: usize = 64;

/// One broadcast channel per account, created when somebody first listens.
pub struct NotifyHub {
    channels: HashMap<u128, Sender<SharingEvent>>,
}

impl View for NotifyHub {
    type V = Map<u128, Sender<SharingEvent>>;

    closed spec fn view(&self) -> Map<u128, Sender<SharingEvent>> {
        self.channels@
    }
}

impl NotifyHub {
    /// A hub with no channels.
    pub fn new() -> (r: Self)
        ensures
            r@ == Map::<u128, Sender<SharingEvent>>::empty(),
    {
        NotifyHub { channels: HashMap::new() }
    }

    /// Listens to an account's events, creating its channel, of `CHANNEL_CAPACITY`, if it
    /// has none; an existing channel is kept. The receiver listens to the account's channel.
    pub fn subscribe(&mut self, user_id: u128) -> (rx: Receiver<SharingEvent>)
        ensures
            final(self)@.dom() == old(self)@.dom().insert(user_id),
            forall|k: u128| old(self)@.contains_key(k) ==> #[trigger] final(self)@[k] == old(self)@[k],
            !old(self)@.contains_key(user_id) ==> channel_capacity(final(self)@[user_id])
                == CHANNEL_CAPACITY,
            receiver_channel(rx) == final(self)@[user_id],
    {
        if !self.channels.contains_key(&user_id) {
            let tx = open_channel(CHANNEL_CAPACITY);
            self.channels.insert(user_id, tx);
        }
        let tx = self.channels.get(&user_id).unwrap();
        subscribe_channel(tx)
    }

    /// Sends an event to an account; nothing happens when nobody listens to it,
    /// and no channel is created.
    pub fn send_to(&self, user_id: u128, event: SharingEvent) {
        if let Some(tx) = self.channels.get(&user_id) {
            send_channel(tx, event);
        }
    }

    /// Drops an account's channel once nobody listens to it any more. Other channels,
    /// and a channel that still has listeners, are kept.
    pub fn remove_if_empty(&mut self, user_id: u128)
        ensures
            final(self)@ == old(self)@ || (old(self)@.contains_key(user_id) && final(self)@ == old(
                self,
            )@.remove(user_id)),
    {
        let listeners = match self.channels.get(&user_id) {
            Some(tx) => Some(channel_receivers(tx)),
            None => None,
        };
        if let Some(n) = listeners {
            self.remove_if_unused(user_id, n);
        }
    }

    /// Drops an account's channel when `listeners`, the number of receivers it has,
    /// is zero. Other channels, and a channel with listeners, are kept.
    pub fn remove_if_unused(&mut self, user_id: u128, listeners: usize)
        ensures
            final(self)@ == (if old(self)@.contains_key(user_id) && listeners == 0 {
                old(self)@.remove(user_id)
            } else {
                old(self)@
            }),
    {
        if listeners == 0 && self.channels.contains_key(&user_id) {
            self.channels.remove(&user_id);
        }
    }

    /// Whether the account has a channel.
    pub fn has_channel(&self, user_id: u128) -> (r: bool)
        ensures
            r == self@.contains_key(user_id),
    {
        self.channels.contains_key(&user_id)
    }
}

} // verus!
