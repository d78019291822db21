//! Tick-by-tick movement physics for a voxel-world game client.
//!
//! The engine ([`physics::Physics`]) turns one tick's pending intent (strafe,
//! forward/backward, jump, speed mode, look direction) and the surrounding
//! voxels ([`world::World`]) into a new position, velocity, grounded flag and
//! water flag. [`momentum`] holds the speed recurrences, [`laws`] the
//! properties proved of whole ticks, and [`processor`] routes server events
//! into the engine and the world.
//!
//! Every continuous quantity (positions, speeds, friction, multipliers) is a
//! decimal fixed-point number: an `i128` counting 10^-15 of a block, see
//! [`fixed`].
use vstd::prelude::*;

pub mod fixed;
pub mod geometry;
pub mod world;
pub mod momentum;
pub mod physics;
pub mod laws;
pub mod processor;

verus! {

} // verus!
