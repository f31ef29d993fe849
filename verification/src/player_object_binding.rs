//! The per-player binding: the player's two channels around the control
//! state, driven once per simulation tick.

use vstd::prelude::*;
use crate::binding_state::{
    tick_of,
    viewport_follows,
    BindingError,
    BindingState,
    Drain,
    TickOutcome,
};
use crate::channel::{offer, poll, Polled};
use crate::connectivity::{
    AssignControllableObjectData,
    ClientServerMessage,
    ServerClientMessage,
};
use crate::identifiable_object::IdType;
use crate::input_flags::InputFlags;
use crate::scalar::Scalar;
use crate::unique_object_storage::UniqueObjectStorage;

verus! {

/// One player's binding: the inbound stream of edge events, the outbound
/// stream of notifications, and the control state between them.
pub struct PlayerObjectBinding {
    incoming_messages: crossbeam_channel::Receiver<ClientServerMessage>,
    outgoing_messages: crossbeam_channel::Sender<ServerClientMessage>,
    state: BindingState,
}

impl PlayerObjectBinding {
    /// The control state held.
    pub closed spec fn state(&self) -> BindingState {
        self.state
    }

    /// The inbound channel held.
    pub closed spec fn incoming(&self) -> crossbeam_channel::Receiver<ClientServerMessage> {
        self.incoming_messages
    }

    /// The outbound channel held.
    pub closed spec fn outgoing(&self) -> crossbeam_channel::Sender<ServerClientMessage> {
        self.outgoing_messages
    }

    /// A binding for a player who has just connected: unbound, nothing held,
    /// around the two channels it is given.
    pub fn new(
        incoming: crossbeam_channel::Receiver<ClientServerMessage>,
        outgoing: crossbeam_channel::Sender<ServerClientMessage>,
        player_viewport_id: IdType,
    ) -> (r: PlayerObjectBinding)
        ensures
            r.state() == BindingState::fresh(player_viewport_id),
            r.incoming() == incoming,
            r.outgoing() == outgoing,
    {
        PlayerObjectBinding {
            incoming_messages: incoming,
            outgoing_messages: outgoing,
            state: BindingState::new(player_viewport_id),
        }
    }

    /// The identity of the controlled object, if the binding is bound.
    pub fn currently_controlled_object(&self) -> (r: Option<IdType>)
        ensures
            r == self.state().currently_controlled_object,
    {
        self.state.currently_controlled_object
    }

    /// The identity of the player's viewport.
    pub fn player_viewport_id(&self) -> (r: IdType)
        ensures
            r == self.state().player_viewport_id,
    {
        self.state.player_viewport_id
    }

    /// The identity that the next tick works on once it has acquired: the
    /// one bound now, or else the first ship of the registry.
    pub fn controlled_after_acquisition(&self, registry: &UniqueObjectStorage) -> (r: Option<
        IdType,
    >)
        requires
            registry.wf(),
        ensures
            r == self.state().acquired(registry@).currently_controlled_object,
    {
        let mut state = self.state;
        state.acquire(registry);
        state.currently_controlled_object
    }

    /// The flags currently held.
    pub fn flags(&self) -> (r: InputFlags)
        ensures
            r == self.state().flags,
    {
        self.state.flags
    }

    /// One tick. An unbound binding binds to the first ship of the registry
    /// and offers the announcement to the outbound channel; a channel that
    /// is full, has no capacity or is disconnected loses the announcement
    /// and does not hold the tick up. The events on the inbound channel are
    /// then applied in arrival order until the channel is found empty or
    /// disconnected; the drain also ends after `usize::MAX` events. Then
    /// the binding is resolved and the craft actuated.
    ///
    /// What comes back is what `tick_of` gives for the events that the drain
    /// received, whichever they were, and for whether it found the channel
    /// disconnected. The binding holds the same two channels afterwards.
    pub fn handle_updates(&mut self, registry: &mut UniqueObjectStorage, delta_t: Scalar) -> (r:
        Result<TickOutcome, BindingError>)
        requires
            old(registry).wf(),
        ensures
            final(registry).wf(),
            exists|events: Seq<ClientServerMessage>, disconnected: bool|
                (r, final(self).state(), final(registry)@) == #[trigger] tick_of(
                    old(self).state(),
                    old(registry)@,
                    events,
                    disconnected,
                    delta_t,
                ),
            r is Ok && r.unwrap().actuation is Some ==> viewport_follows(
                old(registry)@,
                final(registry)@,
                old(self).state().player_viewport_id,
                r.unwrap().actuation.unwrap().target,
            ),
            final(self).incoming() == old(self).incoming(),
            final(self).outgoing() == old(self).outgoing(),
    {
        let ghost before = self.state;
        let assigned = self.state.acquire(registry);
        match assigned {
            Some(id) => {
                offer(
                    &self.outgoing_messages,
                    ServerClientMessage::AssignControllableObject(
                        AssignControllableObjectData { id },
                    ),
                );
            },
            None => {},
        }
        let ghost bound = self.state;
        let ghost mut events: Seq<ClientServerMessage> = Seq::empty();
        let mut budget: usize = usize::MAX;
        while budget > 0
            invariant
                self.incoming() == old(self).incoming(),
                self.outgoing() == old(self).outgoing(),
                registry.wf(),
                registry@ == old(registry)@,
                before == old(self).state(),
                bound == before.acquired(registry@),
                self.state == bound.latched(events),
            decreases budget,
        {
            let polled = poll(&self.incoming_messages);
            proof {
                match polled {
                    Polled::Message(message) => {
                        assert(events.push(message).drop_last() =~= events);
                        events = events.push(message);
                    },
                    _ => {},
                }
            }
            match self.state.absorb(polled) {
                Drain::More => {},
                Drain::Drained => {
                    break ;
                },
                Drain::Disconnected => {
                    proof {
                        let _ = tick_of(before, registry@, events, true, delta_t);
                    }
                    return Err(BindingError::InputDisconnected);
                },
            }
            budget = budget - 1;
        }
        let result = match self.state.step(registry, delta_t) {
            Ok(actuation) => Ok(TickOutcome { assigned, actuation }),
            Err(e) => Err(e),
        };
        proof {
            let _ = tick_of(before, old(registry)@, events, false, delta_t);
        }
        result
    }
}

} // verus!
