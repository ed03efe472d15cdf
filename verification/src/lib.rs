//! The simulation core of a small arcade game: a snake chases a single piece of
//! food inside a walled arena.
//!
//! All lengths are whole numbers of subunits (see [`units`]), so that every
//! quantity of the game, down to a sixtieth of a second of travel, is exact.

pub mod collisions;
pub mod entities;
pub mod game;
pub mod geometry;
pub mod movement;
mod random;
mod seq_facts;
pub mod units;
pub mod walls;
