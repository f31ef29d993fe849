//! The edge-latched input layer: four flags driven by press and release
//! events, independent of tick cadence.

use vstd::prelude::*;
use crate::connectivity::{ClientServerMessage, MotionAction};

verus! {

/// Which of the four actions the player currently holds.
#[derive(Clone, Copy, Debug, PartialEq, Eq)]
pub struct InputFlags {
    pub forward: bool,
    pub reverse: bool,
    pub left: bool,
    pub right: bool,
}

impl InputFlags {
    /// No action held.
    pub open spec fn released() -> InputFlags {
        InputFlags { forward: false, reverse: false, left: false, right: false }
    }

    /// The flag of one action.
    pub open spec fn holds(self, action: MotionAction) -> bool {
        match action {
            MotionAction::Forward => self.forward,
            MotionAction::Reverse => self.reverse,
            MotionAction::Left => self.left,
            MotionAction::Right => self.right,
        }
    }

    /// The flags after a press of `action`: Forward yields to a held Reverse,
    /// Left and Right yield to each other, and Reverse takes the craft over,
    /// clearing the three others.
    pub open spec fn pressed(self, action: MotionAction) -> InputFlags {
        match action {
            MotionAction::Forward => InputFlags { forward: self.forward || !self.reverse, ..self },
            MotionAction::Reverse => InputFlags {
                forward: false,
                reverse: true,
                left: false,
                right: false,
            },
            MotionAction::Left => InputFlags { left: self.left || !self.right, ..self },
            MotionAction::Right => InputFlags { right: self.right || !self.left, ..self },
        }
    }

    /// The flags after a release of `action`: that flag is cleared, whatever
    /// else is held.
    pub open spec fn let_go(self, action: MotionAction) -> InputFlags {
        match action {
            MotionAction::Forward => InputFlags { forward: false, ..self },
            MotionAction::Reverse => InputFlags { reverse: false, ..self },
            MotionAction::Left => InputFlags { left: false, ..self },
            MotionAction::Right => InputFlags { right: false, ..self },
        }
    }

    /// The flags after one edge event.
    pub open spec fn after(self, message: ClientServerMessage) -> InputFlags {
        if message.is_release() {
            self.let_go(message.action_of())
        } else {
            self.pressed(message.action_of())
        }
    }

    /// The flags after a run of edge events, taken in arrival order.
    pub open spec fn after_all(self, messages: Seq<ClientServerMessage>) -> InputFlags
        decreases messages.len(),
    {
        if messages.len() == 0 {
            self
        } else {
            self.after_all(messages.drop_last()).after(messages.last())
        }
    }

    /// At most one turning direction is held, and Forward is never held
    /// together with Reverse.
    pub open spec fn exclusive(self) -> bool {
        !(self.left && self.right) && !(self.forward && self.reverse)
    }

    /// Flags with no action held.
    pub fn new() -> (r: InputFlags)
        ensures
            r == InputFlags::released(),
    {
        InputFlags { forward: false, reverse: false, left: false, right: false }
    }

    /// Applies one edge event.
    pub fn apply(&mut self, message: ClientServerMessage)
        ensures
            *final(self) == old(self).after(message),
    {
        match message {
            ClientServerMessage::ControllableObjectMotionActionForward(data) => {
                if !data.end_event {
                    if !self.reverse {
                        self.forward = true;
                    }
                } else {
                    self.forward = false;
                }
            },
            ClientServerMessage::ControllableObjectMotionActionReverse(data) => {
                if !data.end_event {
                    self.left = false;
                    self.right = false;
                    self.forward = false;
                    self.reverse = true;
                } else {
                    self.reverse = false;
                }
            },
            ClientServerMessage::ControllableObjectMotionActionLeft(data) => {
                if !data.end_event {
                    if !self.right {
                        self.left = true;
                    }
                } else {
                    self.left = false;
                }
            },
            ClientServerMessage::ControllableObjectMotionActionRight(data) => {
                if !data.end_event {
                    if !self.left {
                        self.right = true;
                    }
                } else {
                    self.right = false;
                }
            },
        }
    }

    /// Applies a run of edge events in order.
    pub fn apply_all(&mut self, messages: &Vec<ClientServerMessage>)
        ensures
            *final(self) == old(self).after_all(messages@),
    {
        let mut i: usize = 0;
        while i < messages.len()
            invariant
                i <= messages.len(),
                *self == old(self).after_all(messages@.take(i as int)),
            decreases messages.len() - i,
        {
            proof {
                assert(messages@.take(i + 1).drop_last() =~= messages@.take(i as int));
            }
            self.apply(messages[i]);
            i = i + 1;
        }
        proof {
            assert(messages@.take(i as int) =~= messages@);
        }
    }
}

/// Exclusivity is kept by every edge event.
pub proof fn lemma_after_keeps_exclusive(flags: InputFlags, message: ClientServerMessage)
    requires
        flags.exclusive(),
    ensures
        flags.after(message).exclusive(),
{
}

/// Exclusivity is kept by every run of edge events, so it holds of whatever
/// a session reaches from the released state.
pub proof fn lemma_after_all_keeps_exclusive(flags: InputFlags, messages: Seq<ClientServerMessage>)
    requires
        flags.exclusive(),
    ensures
        flags.after_all(messages).exclusive(),
    decreases messages.len(),
{
    if messages.len() > 0 {
        lemma_after_all_keeps_exclusive(flags, messages.drop_last());
        lemma_after_keeps_exclusive(flags.after_all(messages.drop_last()), messages.last());
    }
}

/// A release clears its own flag and touches no other.
pub proof fn lemma_release_clears_only_its_flag(
    flags: InputFlags,
    action: MotionAction,
    other: MotionAction,
)
    ensures
        !flags.after(ClientServerMessage::release_of(action)).holds(action),
        other != action ==> flags.after(ClientServerMessage::release_of(action)).holds(other)
            == flags.holds(other),
{
}

/// Releasing an action twice in a row leaves what the first release left.
pub proof fn lemma_release_idempotent(flags: InputFlags, action: MotionAction)
    ensures
        flags.after(ClientServerMessage::release_of(action)).after(
            ClientServerMessage::release_of(action),
        ) == flags.after(ClientServerMessage::release_of(action)),
{
}

/// A press of Reverse leaves Reverse held and nothing else, so it clears a
/// Forward that was held.
pub proof fn lemma_reverse_press_takes_over(flags: InputFlags)
    ensures
        flags.after(ClientServerMessage::press_of(MotionAction::Reverse)) == (InputFlags {
            forward: false,
            reverse: true,
            left: false,
            right: false,
        }),
{
}

/// Of two opposite turning presses with no release between them, the first
/// one stands: pressed from a state with no turn held, Left then Right leaves
/// Left alone, and Right then Left leaves Right alone.
pub proof fn lemma_first_turn_press_stands(flags: InputFlags)
    requires
        !flags.left,
        !flags.right,
    ensures
        flags.after(ClientServerMessage::press_of(MotionAction::Left)).after(
            ClientServerMessage::press_of(MotionAction::Right),
        ) == (InputFlags { left: true, right: false, ..flags }),
        flags.after(ClientServerMessage::press_of(MotionAction::Right)).after(
            ClientServerMessage::press_of(MotionAction::Left),
        ) == (InputFlags { left: false, right: true, ..flags }),
{
}

/// Left pressed and then Right pressed, with Right alone held beforehand,
/// leaves Right alone held.
pub proof fn lemma_left_then_right_keeps_held_right(flags: InputFlags)
    requires
        flags.right,
        !flags.left,
    ensures
        flags.after(ClientServerMessage::press_of(MotionAction::Left)).after(
            ClientServerMessage::press_of(MotionAction::Right),
        ) == flags,
{
}

} // verus!
