//! Game objects and their capability probes.

use vstd::prelude::*;
use crate::collision_component::CollisionComponent;
use crate::identifiable_object::IdType;
use crate::motion_component::MotionComponent;

verus! {

/// Per-type data of a ship.
#[derive(Clone, Copy, Debug, PartialEq, Eq)]
pub struct ShipData {
    pub hull: u32,
}

/// Type tag of a game object, with the data of its kind.
#[derive(Clone, Copy, Debug, PartialEq, Eq)]
pub enum ObjectType {
    Ship(ShipData),
    Viewport,
    Projectile,
}

/// A game object: its identity, its type tag, and the capabilities it has.
/// A capability that is `None` is one the object lacks.
#[derive(Clone, Copy, Debug, PartialEq, Eq)]
pub struct GameObject {
    pub id: IdType,
    pub object_type: ObjectType,
    pub motion: Option<MotionComponent>,
    pub collision: Option<CollisionComponent>,
}

impl GameObject {
    /// The object is tagged as a ship.
    pub open spec fn is_ship(self) -> bool {
        self.object_type is Ship
    }

    /// `other` is the same object in a later state: identity, type tag and
    /// the presence of each capability are as in `self`.
    pub open spec fn same_object_as(self, other: GameObject) -> bool {
        &&& self.id == other.id
        &&& self.object_type == other.object_type
        &&& (self.motion is Some) == (other.motion is Some)
        &&& (self.collision is Some) == (other.collision is Some)
    }

    /// A game object made of its parts.
    pub fn new(
        id: IdType,
        object_type: ObjectType,
        motion: Option<MotionComponent>,
        collision: Option<CollisionComponent>,
    ) -> (r: GameObject)
        ensures
            r == (GameObject { id, object_type, motion, collision }),
    {
        GameObject { id, object_type, motion, collision }
    }

    /// The identity.
    pub fn get_id(&self) -> (r: IdType)
        ensures
            r == self.id,
    {
        self.id
    }

    /// The type tag.
    pub fn get_type(&self) -> (r: ObjectType)
        ensures
            r == self.object_type,
    {
        self.object_type
    }

    /// Tests whether the type tag is Ship.
    pub fn has_ship_type(&self) -> (r: bool)
        ensures
            r == self.is_ship(),
    {
        match self.object_type {
            ObjectType::Ship(_) => true,
            _ => false,
        }
    }

    /// Probe for the motion capability.
    pub fn as_motion_component(&self) -> (r: Option<MotionComponent>)
        ensures
            r == self.motion,
    {
        self.motion
    }

    /// Probe for the collision capability.
    pub fn as_collision_component(&self) -> (r: Option<CollisionComponent>)
        ensures
            r == self.collision,
    {
        self.collision
    }
}

} // verus!
