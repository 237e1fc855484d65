//! What can go wrong when a command is carried out.

use vstd::prelude::*;

verus! {

/// Why a command could not be carried out.
#[derive(Clone, Copy, Debug, PartialEq, Eq, Structural)]
pub enum CustomError {
    /// The body costs more than the spawn holds.
    NotEnoughEnergy { needed: u32, had: u32 },
    /// The host shows no spawn of the player's.
    NoSpawn,
}

} // verus!
