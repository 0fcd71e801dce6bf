//! Collision-layer rules, body bookkeeping and the entity/body registry of a
//! Jolt Physics integration for the Bevy engine.
pub mod body;
pub mod layers;
pub mod registry;
pub mod systems;
