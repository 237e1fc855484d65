//! The roles that the spawner can make.

use vstd::prelude::*;

verus! {

/// How many carry parts a worker is made with.
pub type CarryParts = usize;

/// The roles that the spawner can make.
#[derive(Clone, Copy, Debug, PartialEq, Eq, Structural)]
pub enum Role {
    Worker(CarryParts),
}

impl Default for Role {
    fn default() -> (role: Role)
        ensures
            role == Role::Worker(1),
    {
        Role::Worker(1)
    }
}

} // verus!
