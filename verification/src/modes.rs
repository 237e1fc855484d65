//! Arenas whose bot is built around a queue of commands.

pub mod spawn_and_swamp;
