//! The bots of the training arenas, one module for each arena.

pub mod construction;
pub mod creeps_bodies;
pub mod first_attack;
pub mod harvest_energy;
pub mod simple_move;
pub mod spawn_creeps;
pub mod store_and_transfer;
pub mod terrain;
