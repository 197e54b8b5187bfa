//! A platformer movement controller: the per-tick rules that turn button
//! states and the physics engine's reports into velocities and flight state.

pub mod components;
pub mod guarantees;
pub mod physics;
pub mod player;
pub mod systems;
