//! The collision capability: a shape that can be read and replaced.

use vstd::prelude::*;
use crate::shape::Shape;

verus! {

/// Collision state of one object.
#[derive(Clone, Copy, Debug, PartialEq, Eq)]
pub struct CollisionComponent {
    pub shape: Shape,
}

impl CollisionComponent {
    /// A collision component with the given shape.
    pub fn new(shape: Shape) -> (r: CollisionComponent)
        ensures
            r.shape == shape,
    {
        CollisionComponent { shape }
    }

    /// The current shape.
    pub fn get_shape(&self) -> (r: Shape)
        ensures
            r == self.shape,
    {
        self.shape
    }

    /// Replaces the shape.
    pub fn set_shape(&mut self, shape: Shape)
        ensures
            final(self).shape == shape,
    {
        self.shape = shape;
    }
}

} // verus!
