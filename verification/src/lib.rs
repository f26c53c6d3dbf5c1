//! A tiny turn-based, tile-grid role-playing core: a player entity moves
//! through a bounded 2D map of static and simple-AI entities, with turn
//! progression driven by player input.
//!
//! The crate holds the world-state update core: the entity and ability
//! model, the turn-resolution loop, position and collision checking, and
//! level and map bookkeeping.  Rendering, window handling and the platform
//! event loop live outside the library and talk to it through plain values.

use vstd::prelude::*;

pub mod data;
pub mod entity;
pub mod events;
pub mod helper;
pub mod maps;
pub mod math;
pub mod random;
pub mod start;

verus! {

/// What occurs after the main loop.  Nothing yet.
pub fn main_end() {
}

} // verus!

