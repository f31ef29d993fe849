//! The state machine of one player's binding, free of channels: which object
//! the player controls, which flags are held, and what a tick does to the
//! registry.

use vstd::prelude::*;
use crate::channel::Polled;
use crate::connectivity::ClientServerMessage;
use crate::control_law::{angular_command, burn_acceleration, command, command_of, Command};
use crate::identifiable_object::IdType;
use crate::input_flags::{lemma_after_all_keeps_exclusive, InputFlags};
use crate::scalar::{Scalar, SIXTY_BITS};
use crate::shape::{CircleData, Shape};
use crate::unique_object::GameObject;
use crate::unique_object_storage::{
    has_id,
    index_of,
    lemma_lookup_at,
    lemma_replaced,
    lookup,
    moved,
    replaced,
    reshaped,
    unique_ids,
    UniqueObjectStorage,
};

verus! {

/// Why a tick ended the session.
#[derive(Clone, Copy, Debug, PartialEq, Eq)]
pub enum BindingError {
    /// The inbound channel is disconnected: the player is gone.
    InputDisconnected,
    /// No object stands under the viewport's identity.
    ViewportMissing,
    /// The viewport object has no collision capability.
    ViewportWithoutCollision,
    /// The viewport's shape is no circle.
    ViewportNotCircle,
}

/// What a tick did to the controlled object, and the burns it asks of
/// whoever integrates the motion: one application of `acceleration` along
/// the facing over `delta_t` for each burn that `command` holds.
#[derive(Clone, Copy, Debug, PartialEq, Eq)]
pub struct Actuation {
    pub target: IdType,
    pub command: Command,
    pub delta_t: Scalar,
    pub acceleration: Scalar,
}

/// What a tick reports: the identity it bound, if it bound one, which is
/// the one whose announcement is offered to the player, and the actuation it
/// performed, if it performed one.
#[derive(Clone, Copy, Debug, PartialEq, Eq)]
pub struct TickOutcome {
    pub assigned: Option<IdType>,
    pub actuation: Option<Actuation>,
}

/// What the drain does after one look at the inbound channel.
#[derive(Clone, Copy, Debug, PartialEq, Eq)]
pub enum Drain {
    /// An event was applied; look again.
    More,
    /// The queue is empty; go on to actuation.
    Drained,
    /// The channel is disconnected; the session ends.
    Disconnected,
}

/// The object at place `k` is a ship and none before it is.
pub open spec fn is_first_ship_at(objects: Seq<GameObject>, k: int) -> bool {
    &&& 0 <= k < objects.len()
    &&& objects[k].is_ship()
    &&& forall|j: int| 0 <= j < k ==> !(#[trigger] objects[j]).is_ship()
}

/// Some object is a ship.
pub open spec fn has_ship(objects: Seq<GameObject>) -> bool {
    exists|k: int| 0 <= k < objects.len() && (#[trigger] objects[k]).is_ship()
}

/// The identity of the first ship in listing order, if there is a ship.
pub open spec fn first_ship(objects: Seq<GameObject>) -> Option<IdType> {
    if has_ship(objects) {
        Some(objects[choose|k: int| is_first_ship_at(objects, k)].id)
    } else {
        None
    }
}

/// The first ship is the one at the place that `is_first_ship_at` holds of.
pub proof fn lemma_first_ship_at(objects: Seq<GameObject>, k: int)
    requires
        is_first_ship_at(objects, k),
    ensures
        first_ship(objects) == Some(objects[k].id),
{
    assert(objects[k].is_ship());
    let c = choose|c: int| is_first_ship_at(objects, c);
    assert(is_first_ship_at(objects, c));
    if c < k {
        assert(!objects[c].is_ship());
    } else if k < c {
        assert(!objects[k].is_ship());
    }
}

/// Control state of one player: the controlled object, the viewport, and the
/// held flags.
#[derive(Clone, Copy, Debug, PartialEq, Eq)]
pub struct BindingState {
    pub currently_controlled_object: Option<IdType>,
    pub player_viewport_id: IdType,
    pub flags: InputFlags,
}

impl BindingState {
    /// The state of a fresh session: unbound, nothing held.
    pub open spec fn fresh(player_viewport_id: IdType) -> BindingState {
        BindingState {
            currently_controlled_object: None,
            player_viewport_id,
            flags: InputFlags::released(),
        }
    }

    /// The identity that acquisition binds, and whose announcement is to be
    /// offered to the player: the first ship, where the state is unbound;
    /// none where it is bound already.
    pub open spec fn announced(self, objects: Seq<GameObject>) -> Option<IdType> {
        match self.currently_controlled_object {
            Some(_) => None,
            None => first_ship(objects),
        }
    }

    /// The state after acquisition.
    pub open spec fn acquired(self, objects: Seq<GameObject>) -> BindingState {
        match self.currently_controlled_object {
            Some(_) => self,
            None => BindingState { currently_controlled_object: first_ship(objects), ..self },
        }
    }

    /// The state with a run of edge events applied to its flags.
    pub open spec fn latched(self, events: Seq<ClientServerMessage>) -> BindingState {
        BindingState { flags: self.flags.after_all(events), ..self }
    }

    /// The bound identity still resolves to a ship.
    pub open spec fn holds_ship(self, objects: Seq<GameObject>) -> bool {
        match self.currently_controlled_object {
            Some(id) => lookup(objects, id) is Some && lookup(objects, id).unwrap().is_ship(),
            None => false,
        }
    }

    /// The state after the binding is checked against the registry: it is
    /// dropped where the identity no longer resolves to a ship.
    pub open spec fn resolved(self, objects: Seq<GameObject>) -> BindingState {
        if self.holds_ship(objects) {
            self
        } else {
            BindingState { currently_controlled_object: None, ..self }
        }
    }

    /// The object that the tick actuates: the bound ship, where it is live
    /// and has the motion capability.
    pub open spec fn target(self, objects: Seq<GameObject>) -> Option<GameObject> {
        if self.holds_ship(objects) && lookup(
            objects,
            self.currently_controlled_object.unwrap(),
        ).unwrap().motion is Some {
            lookup(objects, self.currently_controlled_object.unwrap())
        } else {
            None
        }
    }

    /// The configuration fault that stops the tick: there is a target, and
    /// the viewport is missing, has no collision capability, or is no circle.
    pub open spec fn fault(self, objects: Seq<GameObject>) -> Option<BindingError> {
        if self.target(objects) is None {
            None
        } else {
            match lookup(objects, self.player_viewport_id) {
                None => Some(BindingError::ViewportMissing),
                Some(viewport) => match viewport.collision {
                    None => Some(BindingError::ViewportWithoutCollision),
                    Some(collision) => if collision.shape is Circle {
                        None
                    } else {
                        Some(BindingError::ViewportNotCircle)
                    },
                },
            }
        }
    }

    /// The tick actuates: there is a target and no fault.
    pub open spec fn actuates(self, objects: Seq<GameObject>) -> bool {
        self.target(objects) is Some && self.fault(objects) is None
    }

    /// The registry after the viewport is synchronised: its circle is
    /// centered on the target, with the radius it had.
    pub open spec fn synced(self, objects: Seq<GameObject>) -> Seq<GameObject> {
        let center = self.target(objects).unwrap().motion.unwrap().coordinates.location;
        let viewport = lookup(objects, self.player_viewport_id).unwrap();
        replaced(
            objects,
            reshaped(viewport, viewport.collision.unwrap().shape.recentered(center).unwrap()),
        )
    }

    /// The registry after the tick: where it actuates, the viewport is
    /// synchronised and the target's rotational velocity is the commanded
    /// one; else nothing has changed.
    pub open spec fn objects_after(self, objects: Seq<GameObject>) -> Seq<GameObject> {
        if self.actuates(objects) {
            let motion = self.target(objects).unwrap().motion.unwrap();
            let synced = self.synced(objects);
            let ship = lookup(synced, self.currently_controlled_object.unwrap()).unwrap();
            replaced(
                synced,
                moved(
                    ship,
                    ship.motion.unwrap().with_velocity(
                        None,
                        None,
                        Some(angular_command(self.flags, motion)),
                    ),
                ),
            )
        } else {
            objects
        }
    }

    /// What the tick reports of its actuation.
    pub open spec fn actuation(self, objects: Seq<GameObject>, delta_t: Scalar) -> Option<
        Actuation,
    > {
        if self.actuates(objects) {
            Some(
                Actuation {
                    target: self.currently_controlled_object.unwrap(),
                    command: command_of(self.flags, self.target(objects).unwrap().motion.unwrap()),
                    delta_t,
                    acceleration: Scalar { bits: SIXTY_BITS },
                },
            )
        } else {
            None
        }
    }

    /// What the drain does with one look at the channel: a message is
    /// applied to the flags, anything else leaves the state alone.
    pub open spec fn absorbed(self, polled: Polled) -> BindingState {
        match polled {
            Polled::Message(message) => BindingState { flags: self.flags.after(message), ..self },
            _ => self,
        }
    }

    /// The state of a fresh session.
    pub fn new(player_viewport_id: IdType) -> (r: BindingState)
        ensures
            r == BindingState::fresh(player_viewport_id),
    {
        BindingState {
            currently_controlled_object: None,
            player_viewport_id,
            flags: InputFlags::new(),
        }
    }

    /// Acquisition: an unbound state binds to the first ship of a snapshot
    /// of the registry and returns its identity, for the announcement that
    /// is offered to the player. A bound state, or a registry without a
    /// ship, changes nothing and returns `None`.
    pub fn acquire(&mut self, registry: &UniqueObjectStorage) -> (r: Option<IdType>)
        requires
            registry.wf(),
        ensures
            r == old(self).announced(registry@),
            *final(self) == old(self).acquired(registry@),
    {
        match self.currently_controlled_object {
            Some(_) => None,
            None => {
                let list = registry.all_objects();
                let mut i: usize = 0;
                while i < list.len()
                    invariant
                        i <= list.len(),
                        list@ == registry@,
                        *self == *old(self),
                        self.currently_controlled_object is None,
                        forall|j: int| 0 <= j < i ==> !(#[trigger] list@[j]).is_ship(),
                    decreases list.len() - i,
                {
                    if list[i].has_ship_type() {
                        let id = list[i].get_id();
                        proof {
                            lemma_first_ship_at(list@, i as int);
                        }
                        self.currently_controlled_object = Some(id);
                        return Some(id);
                    }
                    i = i + 1;
                }
                None
            },
        }
    }

    /// One step of the drain: applies a message that was waiting, and tells
    /// an empty queue from a disconnected channel.
    pub fn absorb(&mut self, polled: Polled) -> (r: Drain)
        ensures
            *final(self) == old(self).absorbed(polled),
            r == match polled {
                Polled::Message(_) => Drain::More,
                Polled::Empty => Drain::Drained,
                Polled::Disconnected => Drain::Disconnected,
            },
    {
        match polled {
            Polled::Message(message) => {
                self.flags.apply(message);
                Drain::More
            },
            Polled::Empty => Drain::Drained,
            Polled::Disconnected => Drain::Disconnected,
        }
    }

    /// Checks the binding against the registry and returns the bound ship;
    /// the binding is dropped where its identity no longer resolves to one.
    pub fn resolve(&mut self, registry: &UniqueObjectStorage) -> (r: Option<GameObject>)
        requires
            registry.wf(),
        ensures
            *final(self) == old(self).resolved(registry@),
            r is Some == old(self).holds_ship(registry@),
            r is Some ==> r == lookup(registry@, old(self).currently_controlled_object.unwrap()),
    {
        match self.currently_controlled_object {
            Some(has) => match registry.get_by_id(has) {
                Some(object_exists) => {
                    if object_exists.has_ship_type() {
                        Some(object_exists)
                    } else {
                        self.currently_controlled_object = None;
                        None
                    }
                },
                None => {
                    self.currently_controlled_object = None;
                    None
                },
            },
            None => None,
        }
    }

    /// Resolution and actuation. The binding is dropped where it no longer
    /// resolves to a ship. Where it resolves to one that has the motion
    /// capability, the viewport's circle is centered on the ship with its
    /// radius kept, the ship's rotational velocity is set as the control law
    /// commands, and the burns it commands are reported. A viewport that is
    /// missing, has no collision capability or is no circle is a fault, and
    /// leaves the registry as it was.
    pub fn step(&mut self, registry: &mut UniqueObjectStorage, delta_t: Scalar) -> (r: Result<
        Option<Actuation>,
        BindingError,
    >)
        requires
            old(registry).wf(),
        ensures
            final(registry).wf(),
            *final(self) == old(self).resolved(old(registry)@),
            match r {
                Ok(actuation) => {
                    &&& old(self).fault(old(registry)@) is None
                    &&& actuation == old(self).actuation(old(registry)@, delta_t)
                    &&& final(registry)@ == old(self).objects_after(old(registry)@)
                },
                Err(e) => {
                    &&& old(self).fault(old(registry)@) == Some(e)
                    &&& final(registry)@ == old(registry)@
                },
            },
            r is Ok && r.unwrap() is Some ==> viewport_follows(
                old(registry)@,
                final(registry)@,
                old(self).player_viewport_id,
                r.unwrap().unwrap().target,
            ),
    {
        let ghost before = registry@;
        let ghost state = *self;
        let controlled = self.resolve(registry);
        match controlled {
            Some(has) => match has.as_motion_component() {
                Some(motion) => {
                    let viewport = match registry.get_by_id(self.player_viewport_id) {
                        Some(player_viewport) => player_viewport,
                        None => {
                            return Err(BindingError::ViewportMissing);
                        },
                    };
                    let collision = match viewport.as_collision_component() {
                        Some(viewport_collision_component) => viewport_collision_component,
                        None => {
                            return Err(BindingError::ViewportWithoutCollision);
                        },
                    };
                    let center = motion.get_coordinates().location;
                    let new_shape = match collision.get_shape().recenter(center) {
                        Some(circle) => circle,
                        None => {
                            return Err(BindingError::ViewportNotCircle);
                        },
                    };
                    let id = has.get_id();
                    proof {
                        let k = index_of(before, id);
                        lemma_lookup_at(before, k);
                        lemma_replaced(before, reshaped(viewport, new_shape), id);
                    }
                    registry.set_shape(self.player_viewport_id, new_shape);
                    let orders = command(&self.flags, &motion);
                    registry.set_velocity(id, None, None, Some(orders.angular_velocity));
                    proof {
                        lemma_viewport_follows(state, before);
                    }
                    Ok(
                        Some(
                            Actuation {
                                target: id,
                                command: orders,
                                delta_t,
                                acceleration: burn_acceleration(),
                            },
                        ),
                    )
                },
                None => Ok(None),
            },
            None => Ok(None),
        }
    }
}

/// What a whole tick comes to, given the events that its drain received and
/// whether the drain found the channel disconnected: the result, the state
/// it leaves, and the registry it leaves.
///
/// Acquisition comes first, then the events are applied in arrival order. A
/// disconnected channel ends the tick there. Otherwise the binding is
/// resolved and the craft actuated; a viewport fault is reported after the
/// binding was resolved, with the registry untouched.
pub open spec fn tick_of(
    state: BindingState,
    objects: Seq<GameObject>,
    events: Seq<ClientServerMessage>,
    disconnected: bool,
    delta_t: Scalar,
) -> (Result<TickOutcome, BindingError>, BindingState, Seq<GameObject>) {
    let latched = state.acquired(objects).latched(events);
    if disconnected {
        (Err(BindingError::InputDisconnected), latched, objects)
    } else {
        match latched.fault(objects) {
            Some(e) => (Err(e), latched.resolved(objects), objects),
            None => (
                Ok(
                    TickOutcome {
                        assigned: state.announced(objects),
                        actuation: latched.actuation(objects, delta_t),
                    },
                ),
                latched.resolved(objects),
                latched.objects_after(objects),
            ),
        }
    }
}

impl BindingState {
    /// A whole tick on events that were received beforehand: acquisition,
    /// the events in arrival order, then, unless the channel was found
    /// disconnected, resolution and actuation.
    pub fn tick(
        &mut self,
        registry: &mut UniqueObjectStorage,
        events: &Vec<ClientServerMessage>,
        disconnected: bool,
        delta_t: Scalar,
    ) -> (r: Result<TickOutcome, BindingError>)
        requires
            old(registry).wf(),
        ensures
            final(registry).wf(),
            (r, *final(self), final(registry)@) == tick_of(
                *old(self),
                old(registry)@,
                events@,
                disconnected,
                delta_t,
            ),
            r is Ok && r.unwrap().actuation is Some ==> viewport_follows(
                old(registry)@,
                final(registry)@,
                old(self).player_viewport_id,
                r.unwrap().actuation.unwrap().target,
            ),
    {
        let assigned = self.acquire(registry);
        self.flags.apply_all(events);
        if disconnected {
            return Err(BindingError::InputDisconnected);
        }
        match self.step(registry, delta_t) {
            Ok(actuation) => Ok(TickOutcome { assigned, actuation }),
            Err(e) => Err(e),
        }
    }
}

/// While the registry holds no ship, a tick of an unbound state leaves it
/// unbound, reports no binding to announce and leaves the registry as it
/// was.
pub proof fn lemma_unbound_without_ship(
    state: BindingState,
    objects: Seq<GameObject>,
    events: Seq<ClientServerMessage>,
    delta_t: Scalar,
)
    requires
        state.currently_controlled_object is None,
        !has_ship(objects),
    ensures
        tick_of(state, objects, events, false, delta_t) == (
            Ok::<TickOutcome, BindingError>(TickOutcome { assigned: None, actuation: None }),
            state.latched(events),
            objects,
        ),
{
}

/// Once the registry holds a ship, a tick of an unbound state binds to the
/// first one in listing order, the only one where there is one, and
/// reports it for announcement where the tick completes; the state stays
/// bound to it
/// whether or not actuation then meets a viewport fault.
pub proof fn lemma_unbound_binds_first_ship(
    state: BindingState,
    objects: Seq<GameObject>,
    events: Seq<ClientServerMessage>,
    delta_t: Scalar,
    k: int,
)
    requires
        unique_ids(objects),
        state.currently_controlled_object is None,
        is_first_ship_at(objects, k),
    ensures
        tick_of(state, objects, events, false, delta_t).1.currently_controlled_object == Some(
            objects[k].id,
        ),
        tick_of(state, objects, events, false, delta_t).0 is Ok ==> tick_of(
            state,
            objects,
            events,
            false,
            delta_t,
        ).0.unwrap().assigned == Some(objects[k].id),
{
    lemma_first_ship_at(objects, k);
    lemma_lookup_at(objects, k);
}

/// A bound state reports no binding to announce, whatever the registry
/// holds.
pub proof fn lemma_bound_announces_nothing(
    state: BindingState,
    objects: Seq<GameObject>,
    events: Seq<ClientServerMessage>,
    delta_t: Scalar,
)
    requires
        state.currently_controlled_object is Some,
    ensures
        tick_of(state, objects, events, false, delta_t).0 is Ok ==> tick_of(
            state,
            objects,
            events,
            false,
            delta_t,
        ).0.unwrap().assigned is None,
{
}

/// Where the bound identity is gone from the registry, or stands for an
/// object that is no ship, the tick drops the binding, reports none to
/// announce,
/// actuates nothing and leaves the registry as it was.
pub proof fn lemma_binding_lost(
    state: BindingState,
    objects: Seq<GameObject>,
    events: Seq<ClientServerMessage>,
    delta_t: Scalar,
)
    requires
        state.currently_controlled_object is Some,
        lookup(objects, state.currently_controlled_object.unwrap()) is None || !lookup(
            objects,
            state.currently_controlled_object.unwrap(),
        ).unwrap().is_ship(),
    ensures
        tick_of(state, objects, events, false, delta_t) == (
            Ok::<TickOutcome, BindingError>(TickOutcome { assigned: None, actuation: None }),
            BindingState { currently_controlled_object: None, ..state.latched(events) },
            objects,
        ),
{
}

/// A tick whose drain found the channel disconnected fails with
/// `InputDisconnected`, whatever else holds.
pub proof fn lemma_disconnect_is_fatal(
    state: BindingState,
    objects: Seq<GameObject>,
    events: Seq<ClientServerMessage>,
    delta_t: Scalar,
)
    ensures
        tick_of(state, objects, events, true, delta_t).0 == Err::<TickOutcome, BindingError>(
            BindingError::InputDisconnected,
        ),
{
}

/// A tick keeps the flags exclusive: from a fresh session on, no tick ever
/// sees Forward held together with Reverse, or Left together with Right, so
/// no tick commands two burns.
pub proof fn lemma_tick_keeps_exclusive(
    state: BindingState,
    objects: Seq<GameObject>,
    events: Seq<ClientServerMessage>,
    disconnected: bool,
    delta_t: Scalar,
)
    requires
        state.flags.exclusive(),
    ensures
        tick_of(state, objects, events, disconnected, delta_t).1.flags.exclusive(),
        tick_of(state, objects, events, disconnected, delta_t).1.flags == state.flags.after_all(
            events,
        ),
        tick_of(state, objects, events, disconnected, delta_t).1.player_viewport_id
            == state.player_viewport_id,
{
    lemma_after_all_keeps_exclusive(state.flags, events);
}

/// Viewport synchronisation: in `after`, the viewport's shape is a circle
/// whose center is the position of the object `target`, and whose radius is
/// the one the viewport's circle had in `before`; the target's position is
/// the one it had in `before`.
pub open spec fn viewport_follows(
    before: Seq<GameObject>,
    after: Seq<GameObject>,
    viewport_id: IdType,
    target: IdType,
) -> bool {
    &&& lookup(before, viewport_id) is Some
    &&& lookup(before, viewport_id).unwrap().collision is Some
    &&& lookup(before, viewport_id).unwrap().collision.unwrap().shape is Circle
    &&& lookup(before, target) is Some
    &&& lookup(before, target).unwrap().motion is Some
    &&& lookup(after, viewport_id) is Some
    &&& lookup(after, viewport_id).unwrap().collision is Some
    &&& lookup(after, target) is Some
    &&& lookup(after, target).unwrap().motion is Some
    &&& lookup(after, target).unwrap().motion.unwrap().coordinates.location == lookup(
        before,
        target,
    ).unwrap().motion.unwrap().coordinates.location
    &&& lookup(after, viewport_id).unwrap().collision.unwrap().shape == Shape::Circle(
        CircleData {
            location: lookup(after, target).unwrap().motion.unwrap().coordinates.location,
            radius: lookup(before, viewport_id).unwrap().collision.unwrap().shape->Circle_0.radius,
        },
    )
}

/// After a tick that actuates, the viewport's circle is centered exactly on
/// the controlled object and has the radius it had before; no identity has
/// come or gone, and the controlled object has the rotational velocity that
/// the control law commands.
pub proof fn lemma_viewport_follows(state: BindingState, objects: Seq<GameObject>)
    requires
        unique_ids(objects),
        state.actuates(objects),
    ensures
        unique_ids(state.objects_after(objects)),
        viewport_follows(
            objects,
            state.objects_after(objects),
            state.player_viewport_id,
            state.currently_controlled_object.unwrap(),
        ),
        forall|id: IdType| has_id(state.objects_after(objects), id) == has_id(objects, id),
        lookup(
            state.objects_after(objects),
            state.currently_controlled_object.unwrap(),
        ).unwrap().motion.unwrap().coordinates.angular_velocity == angular_command(
            state.flags,
            state.target(objects).unwrap().motion.unwrap(),
        ),
{
    let id = state.currently_controlled_object.unwrap();
    let viewport_id = state.player_viewport_id;
    let motion = state.target(objects).unwrap().motion.unwrap();
    let viewport = lookup(objects, viewport_id).unwrap();
    let shape = viewport.collision.unwrap().shape.recentered(motion.coordinates.location).unwrap();
    let synced = state.synced(objects);
    lemma_lookup_at(objects, index_of(objects, viewport_id));
    lemma_lookup_at(objects, index_of(objects, id));
    lemma_replaced(objects, reshaped(viewport, shape), id);
    lemma_replaced(objects, reshaped(viewport, shape), viewport_id);
    let ship = lookup(synced, id).unwrap();
    let turned = moved(
        ship,
        ship.motion.unwrap().with_velocity(None, None, Some(angular_command(state.flags, motion))),
    );
    lemma_replaced(synced, turned, id);
    lemma_replaced(synced, turned, viewport_id);
    assert forall|other: IdType| has_id(state.objects_after(objects), other) == has_id(
        objects,
        other,
    ) by {
        lemma_replaced(objects, reshaped(viewport, shape), other);
        lemma_replaced(synced, turned, other);
    }
}

} // verus!
