//! The player's message channels.

use vstd::prelude::*;
use crate::connectivity::{ClientServerMessage, ServerClientMessage};

verus! {

/// The receiving half of a channel, carried through as an opaque value.
#[verifier::external_type_specification]
#[verifier::external_body]
#[verifier::reject_recursive_types(T)]
pub struct ExReceiver<T>(crossbeam_channel::Receiver<T>);

/// The sending half of a channel, carried through as an opaque value.
#[verifier::external_type_specification]
#[verifier::external_body]
#[verifier::reject_recursive_types(T)]
pub struct ExSender<T>(crossbeam_channel::Sender<T>);

/// What one non-blocking look at the inbound channel found.
#[derive(Clone, Copy, Debug, PartialEq, Eq)]
pub enum Polled {
    /// A message was waiting.
    Message(ClientServerMessage),
    /// Nothing is waiting; the channel is still connected.
    Empty,
    /// Nothing is waiting and every sender is gone.
    Disconnected,
}

/// `crossbeam_channel::Receiver::try_recv`: takes the next message if one is
/// waiting, without blocking. Nothing is claimed of which of the three
/// outcomes comes back: that depends on the other side of the channel.
#[verifier::external_body]
pub(crate) fn poll(incoming: &crossbeam_channel::Receiver<ClientServerMessage>) -> (r: Polled) {
    match incoming.try_recv() {
        Ok(message) => Polled::Message(message),
        Err(crossbeam_channel::TryRecvError::Empty) => Polled::Empty,
        Err(crossbeam_channel::TryRecvError::Disconnected) => Polled::Disconnected,
    }
}

/// `crossbeam_channel::Sender::try_send`: hands a message to the channel
/// without blocking, and says whether the channel took it. Nothing is
/// claimed of the answer: a full or disconnected channel refuses.
#[verifier::external_body]
pub(crate) fn offer(
    outgoing: &crossbeam_channel::Sender<ServerClientMessage>,
    message: ServerClientMessage,
) -> (r: bool) {
    outgoing.try_send(message).is_ok()
}

} // verus!
