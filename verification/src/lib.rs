//! Server-side simulation core of a multiplayer spatial-combat game: a
//! registry of game objects addressed by stable identity, and the per-player
//! binding that folds discrete key edge events into per-tick actuation of one
//! controlled object.

pub mod binding_state;
pub mod channel;
pub mod collision_component;
pub mod connectivity;
pub mod control_law;
pub mod identifiable_object;
pub mod input_flags;
pub mod motion_component;
pub mod player_object_binding;
pub mod scalar;
pub mod shape;
pub mod starfield_generator;
pub mod unique_object;
pub mod unique_object_storage;
