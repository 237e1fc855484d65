//! Decision cores for bots that play a tick-based strategy arena.
//!
//! Every tick the host program hands the library a plain snapshot of the
//! world (creeps, structures, flags) together with the answers to the
//! questions only the host can settle, such as which object is nearest by
//! path. The library decides roles, spawn requests and per-creep orders and
//! hands plain values back. Nothing in here talks to the host itself.

pub mod ctf;
pub mod global;
pub mod intent;
pub mod logger;
pub mod modes;
pub mod seqs;
pub mod spawn_and_swamp;
pub mod swamp;
pub mod text;
pub mod tutorials;
pub mod world;
