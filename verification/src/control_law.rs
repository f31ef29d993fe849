//! The continuous layer: what the held flags command of a craft on one tick.
//!
//! Turning is commanded directly by Left and Right. Forward burns the
//! engine. Reverse has no thruster of its own: the craft turns until it
//! faces against its velocity, and burns once it does.

use vstd::prelude::*;
use crate::input_flags::InputFlags;
use crate::motion_component::MotionComponent;
use crate::scalar::{Scalar, MINUS_ONE_BITS, ONE_BITS, SIXTY_BITS};

verus! {

/// Rotational velocity commanded by the turning flags: minus one for Left,
/// plus one for Right, zero for neither. Right is looked at last.
pub open spec fn turn_command(flags: InputFlags) -> Scalar {
    if flags.right {
        Scalar { bits: ONE_BITS }
    } else if flags.left {
        Scalar { bits: MINUS_ONE_BITS }
    } else {
        Scalar { bits: 0 }
    }
}

/// The craft faces the brake heading: the error is under one degree either
/// way.
pub open spec fn faces_brake_heading(motion: MotionComponent) -> bool {
    motion.brake_heading_error.is_within_one()
}

/// Rotational velocity that turns the craft toward the brake heading: the
/// sign of the error, and zero for an error that is no number.
pub open spec fn brake_turn_command(error: Scalar) -> Scalar {
    if error.is_positive() {
        Scalar { bits: ONE_BITS }
    } else if error.is_negative() {
        Scalar { bits: MINUS_ONE_BITS }
    } else {
        Scalar { bits: 0 }
    }
}

/// Rotational velocity set on this tick. A held Reverse that still has to
/// turn overrides the turning flags.
pub open spec fn angular_command(flags: InputFlags, motion: MotionComponent) -> Scalar {
    if flags.reverse && !faces_brake_heading(motion) {
        brake_turn_command(motion.brake_heading_error)
    } else {
        turn_command(flags)
    }
}

/// Forward burns on this tick.
pub open spec fn forward_burns(flags: InputFlags) -> bool {
    flags.forward
}

/// Reverse burns on this tick: it is held and the craft faces the brake
/// heading.
pub open spec fn brake_burns(flags: InputFlags, motion: MotionComponent) -> bool {
    flags.reverse && faces_brake_heading(motion)
}

/// Magnitude of the forward-facing acceleration of a burn: sixty units per
/// second squared.
pub fn burn_acceleration() -> (r: Scalar)
    ensures
        r.bits == SIXTY_BITS,
{
    Scalar::from_bits(SIXTY_BITS)
}

/// Computes the rotational velocity commanded by the turning flags.
pub fn command_turn(flags: &InputFlags) -> (r: Scalar)
    ensures
        r == turn_command(*flags),
{
    let mut rotational_velocity = Scalar::zero();
    if flags.left {
        rotational_velocity = Scalar::minus_one();
    }
    if flags.right {
        rotational_velocity = Scalar::one();
    }
    rotational_velocity
}

/// Computes the rotational velocity that turns toward the brake heading.
pub fn command_brake_turn(error: &Scalar) -> (r: Scalar)
    ensures
        r == brake_turn_command(*error),
{
    let mut rotational_velocity = Scalar::zero();
    if error.negative() {
        rotational_velocity = Scalar::minus_one();
    }
    if error.positive() {
        rotational_velocity = Scalar::one();
    }
    rotational_velocity
}

/// What one tick commands of a craft.
#[derive(Clone, Copy, Debug, PartialEq, Eq)]
pub struct Command {
    /// Rotational velocity to set.
    pub angular_velocity: Scalar,
    /// Forward is held: burn.
    pub forward_burn: bool,
    /// Reverse is held and the craft faces the brake heading: burn.
    pub brake_burn: bool,
}

/// The command of one tick, as a value.
pub open spec fn command_of(flags: InputFlags, motion: MotionComponent) -> Command {
    Command {
        angular_velocity: angular_command(flags, motion),
        forward_burn: forward_burns(flags),
        brake_burn: brake_burns(flags, motion),
    }
}

/// Computes the command of one tick from the held flags and the motion
/// state of the craft.
pub fn command(flags: &InputFlags, motion: &MotionComponent) -> (r: Command)
    ensures
        r == command_of(*flags, *motion),
{
    let mut angular_velocity = command_turn(flags);
    let forward_burn = flags.forward;
    let mut brake_burn = false;
    if flags.reverse {
        let error = motion.get_brake_heading_error();
        if error.within_one() {
            brake_burn = true;
        } else {
            angular_velocity = command_brake_turn(&error);
        }
    }
    Command { angular_velocity, forward_burn, brake_burn }
}

/// While Reverse is held and the craft is off the brake heading by a degree
/// or more, no brake burn is commanded and the craft is turned by the sign of
/// the error; once it is within a degree, the brake burn is commanded and the
/// turning flags steer again.
pub proof fn lemma_reverse_turns_then_burns(flags: InputFlags, motion: MotionComponent)
    requires
        flags.reverse,
    ensures
        !faces_brake_heading(motion) ==> !command_of(flags, motion).brake_burn && command_of(
            flags,
            motion,
        ).angular_velocity == brake_turn_command(motion.brake_heading_error),
        faces_brake_heading(motion) ==> command_of(flags, motion).brake_burn && command_of(
            flags,
            motion,
        ).angular_velocity == turn_command(flags),
{
}

/// With exclusive flags, at most one burn is commanded on a tick.
pub proof fn lemma_one_burn_at_most(flags: InputFlags, motion: MotionComponent)
    requires
        flags.exclusive(),
    ensures
        !(command_of(flags, motion).forward_burn && command_of(flags, motion).brake_burn),
{
}

} // verus!
