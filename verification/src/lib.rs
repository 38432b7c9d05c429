//! A verified simulation engine for a grid-based arcade shooter.
//!
//! A formation of enemies advances and fires while a ship fires back. The
//! engine decides, once per tick, where everything stands, what was hit and
//! whether the game is won or lost. It neither draws nor plays nor reads
//! keys: it hands out a grid of text cells and the sounds that are due, and
//! takes the keys it is given.
//!
//! The modules go leaf first: geometry, the entity that all units share,
//! the three kinds of unit, the engine's states and steps as mathematics,
//! the engine itself, what holds of it, and the grid it is painted on.

pub mod container;
pub mod gobj;
pub mod audio;
pub mod clock;
pub mod ship;
pub mod enemy;
pub mod weapon;
pub mod seq_facts;
pub mod model;
pub mod game;
pub mod laws;
pub mod keyboard;
pub mod game_buffer;
pub mod sized_vector;
