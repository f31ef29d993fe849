//! Messages exchanged with a player's client.

use vstd::prelude::*;
use crate::identifiable_object::IdType;

verus! {

/// Payload of a motion action: whether the edge is a release.
#[derive(Clone, Copy, Debug, PartialEq, Eq)]
pub struct ControllableObjectMotionActionData {
    pub end_event: bool,
}

/// An edge event sent by the client: a press or a release of one of the four
/// logical actions.
#[derive(Clone, Copy, Debug, PartialEq, Eq)]
pub enum ClientServerMessage {
    ControllableObjectMotionActionForward(ControllableObjectMotionActionData),
    ControllableObjectMotionActionReverse(ControllableObjectMotionActionData),
    ControllableObjectMotionActionLeft(ControllableObjectMotionActionData),
    ControllableObjectMotionActionRight(ControllableObjectMotionActionData),
}

/// Payload of the assignment notification: the identity now controlled.
#[derive(Clone, Copy, Debug, PartialEq, Eq)]
pub struct AssignControllableObjectData {
    pub id: IdType,
}

/// A notification sent to the client.
#[derive(Clone, Copy, Debug, PartialEq, Eq)]
pub enum ServerClientMessage {
    AssignControllableObject(AssignControllableObjectData),
}

/// The four logical actions a player can hold.
#[derive(Clone, Copy, Debug, PartialEq, Eq)]
pub enum MotionAction {
    Forward,
    Reverse,
    Left,
    Right,
}

impl ClientServerMessage {
    /// The action the event is about.
    pub open spec fn action_of(self) -> MotionAction {
        match self {
            ClientServerMessage::ControllableObjectMotionActionForward(_) => MotionAction::Forward,
            ClientServerMessage::ControllableObjectMotionActionReverse(_) => MotionAction::Reverse,
            ClientServerMessage::ControllableObjectMotionActionLeft(_) => MotionAction::Left,
            ClientServerMessage::ControllableObjectMotionActionRight(_) => MotionAction::Right,
        }
    }

    /// Whether the event is a release.
    pub open spec fn is_release(self) -> bool {
        match self {
            ClientServerMessage::ControllableObjectMotionActionForward(d) => d.end_event,
            ClientServerMessage::ControllableObjectMotionActionReverse(d) => d.end_event,
            ClientServerMessage::ControllableObjectMotionActionLeft(d) => d.end_event,
            ClientServerMessage::ControllableObjectMotionActionRight(d) => d.end_event,
        }
    }

    /// The event that presses `action`.
    pub open spec fn press_of(action: MotionAction) -> ClientServerMessage {
        Self::edge_of(action, false)
    }

    /// The event that releases `action`.
    pub open spec fn release_of(action: MotionAction) -> ClientServerMessage {
        Self::edge_of(action, true)
    }

    /// The event for `action` with the given release flag.
    pub open spec fn edge_of(action: MotionAction, end_event: bool) -> ClientServerMessage {
        let data = ControllableObjectMotionActionData { end_event };
        match action {
            MotionAction::Forward => ClientServerMessage::ControllableObjectMotionActionForward(data),
            MotionAction::Reverse => ClientServerMessage::ControllableObjectMotionActionReverse(data),
            MotionAction::Left => ClientServerMessage::ControllableObjectMotionActionLeft(data),
            MotionAction::Right => ClientServerMessage::ControllableObjectMotionActionRight(data),
        }
    }

    /// Builds the press event of an action.
    pub fn press(action: MotionAction) -> (r: ClientServerMessage)
        ensures
            r == Self::press_of(action),
    {
        Self::edge(action, false)
    }

    /// Builds the release event of an action.
    pub fn release(action: MotionAction) -> (r: ClientServerMessage)
        ensures
            r == Self::release_of(action),
    {
        Self::edge(action, true)
    }

    /// Builds the event for an action with the given release flag.
    pub fn edge(action: MotionAction, end_event: bool) -> (r: ClientServerMessage)
        ensures
            r == Self::edge_of(action, end_event),
            r.action_of() == action,
            r.is_release() == end_event,
    {
        let data = ControllableObjectMotionActionData { end_event };
        match action {
            MotionAction::Forward => ClientServerMessage::ControllableObjectMotionActionForward(data),
            MotionAction::Reverse => ClientServerMessage::ControllableObjectMotionActionReverse(data),
            MotionAction::Left => ClientServerMessage::ControllableObjectMotionActionLeft(data),
            MotionAction::Right => ClientServerMessage::ControllableObjectMotionActionRight(data),
        }
    }
}

} // verus!
