//! The rules of a small top-down arcade shooter, proved.
//!
//! A player walks and fires at enemies that close in, gathers the experience
//! they drop, levels up by choosing upgrades, and the session ends when the
//! player dies. The engine that draws the game, reads the input and stores
//! the entities is not part of this library: each routine here takes the
//! records of the entities it works on and says what becomes of them in one
//! frame.
//!
//! Lengths and speeds are whole numbers of thousandths of a world unit (see
//! `geometry`); time is the engine's own (see `clock`).

pub mod bounding;
pub mod bundles;
pub mod clock;
pub mod components;
pub mod enemies;
pub mod events;
pub mod fire_control;
pub mod geometry;
pub mod menus;
pub mod player;
pub mod projectiles;
pub mod random;
pub mod score;
pub mod states;
pub mod systems;
pub mod upgrades;
