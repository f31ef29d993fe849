//! Geometric proxies used for coarse spatial queries.

use vstd::prelude::*;
use crate::scalar::Scalar;

verus! {

/// A position in the plane.
#[derive(Clone, Copy, Debug, PartialEq, Eq)]
pub struct Location {
    pub x: Scalar,
    pub y: Scalar,
}

/// A circle: its center and its radius.
#[derive(Clone, Copy, Debug, PartialEq, Eq)]
pub struct CircleData {
    pub location: Location,
    pub radius: Scalar,
}

/// A single point.
#[derive(Clone, Copy, Debug, PartialEq, Eq)]
pub struct PointData {
    pub location: Location,
}

/// The shape of an object, as a tagged union.
#[derive(Clone, Copy, Debug, PartialEq, Eq)]
pub enum Shape {
    Circle(CircleData),
    Point(PointData),
}

impl Shape {
    /// The circle with the same radius, centered at `center`; `None` for a
    /// shape that is no circle.
    pub open spec fn recentered(self, center: Location) -> Option<Shape> {
        match self {
            Shape::Circle(data) => Some(
                Shape::Circle(CircleData { location: center, radius: data.radius }),
            ),
            _ => None,
        }
    }

    /// Moves a circle to a new center and keeps its radius; a shape that is
    /// no circle is refused.
    pub fn recenter(&self, center: Location) -> (r: Option<Shape>)
        ensures
            r == self.recentered(center),
    {
        match self {
            Shape::Circle(data) => Some(
                Shape::Circle(CircleData { location: center, radius: data.radius }),
            ),
            _ => None,
        }
    }
}

} // verus!
