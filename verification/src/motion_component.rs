//! The motion capability: where an object is, how it moves, and how far its
//! facing is from the heading that would brake it.

use vstd::prelude::*;
use crate::scalar::Scalar;
use crate::shape::Location;

verus! {

/// Linear velocity in the plane.
#[derive(Clone, Copy, Debug, PartialEq, Eq)]
pub struct Velocity {
    pub x: Scalar,
    pub y: Scalar,
}

/// Position, linear velocity, facing and angular velocity of one object.
#[derive(Clone, Copy, Debug, PartialEq, Eq)]
pub struct Coordinates {
    pub location: Location,
    pub velocity: Velocity,
    pub rotation: Scalar,
    pub angular_velocity: Scalar,
}

/// Motion state of one object.
///
/// `brake_heading_error` is the signed angle, in degrees, from the heading
/// opposite to the velocity to the current facing. Whoever integrates the
/// motion keeps it current with velocity and rotation.
#[derive(Clone, Copy, Debug, PartialEq, Eq)]
pub struct MotionComponent {
    pub coordinates: Coordinates,
    pub brake_heading_error: Scalar,
}

/// `given` where a component is given, `current` where it is left unset.
pub open spec fn chosen(given: Option<Scalar>, current: Scalar) -> Scalar {
    match given {
        Some(value) => value,
        None => current,
    }
}

impl MotionComponent {
    /// The motion state after a velocity update in which each of the three
    /// components is independently optional.
    pub open spec fn with_velocity(
        self,
        x: Option<Scalar>,
        y: Option<Scalar>,
        angular: Option<Scalar>,
    ) -> MotionComponent {
        MotionComponent {
            coordinates: Coordinates {
                velocity: Velocity {
                    x: chosen(x, self.coordinates.velocity.x),
                    y: chosen(y, self.coordinates.velocity.y),
                },
                angular_velocity: chosen(angular, self.coordinates.angular_velocity),
                ..self.coordinates
            },
            ..self
        }
    }

    /// A motion component with the given state.
    pub fn new(coordinates: Coordinates, brake_heading_error: Scalar) -> (r: MotionComponent)
        ensures
            r.coordinates == coordinates,
            r.brake_heading_error == brake_heading_error,
    {
        MotionComponent { coordinates, brake_heading_error }
    }

    /// The current coordinates.
    pub fn get_coordinates(&self) -> (r: Coordinates)
        ensures
            r == self.coordinates,
    {
        self.coordinates
    }

    /// The current brake heading error, in degrees.
    pub fn get_brake_heading_error(&self) -> (r: Scalar)
        ensures
            r == self.brake_heading_error,
    {
        self.brake_heading_error
    }

    /// Sets the components that are given and leaves the others untouched.
    pub fn set_velocity(&mut self, x: Option<Scalar>, y: Option<Scalar>, angular: Option<Scalar>)
        ensures
            *final(self) == old(self).with_velocity(x, y, angular),
    {
        match x {
            Some(value) => {
                self.coordinates.velocity.x = value;
            },
            None => {},
        }
        match y {
            Some(value) => {
                self.coordinates.velocity.y = value;
            },
            None => {},
        }
        match angular {
            Some(value) => {
                self.coordinates.angular_velocity = value;
            },
            None => {},
        }
    }
}

} // verus!
