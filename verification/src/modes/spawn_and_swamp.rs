//! The swamp arena with a spawner that spends all the energy there is on
//! each worker.

pub mod error;
pub mod role;
pub mod spawner;
pub mod state;

use crate::modes::spawn_and_swamp::state::{last_known, State};
use crate::world::Structure;
use vstd::prelude::*;

verus! {

/// One tick of the match: on the first tick the state takes note of the
/// spawns that the host shows; on every other tick nothing changes.
pub fn run(state: &mut State, ticks: u32, spawns: &Vec<Structure>)
    ensures
        final(state).commands == old(state).commands,
        ticks == 1 ==> final(state).my_spawn == last_known(spawns@, true, old(state).my_spawn)
            && final(state).enemy_spawn == last_known(spawns@, false, old(state).enemy_spawn),
        ticks != 1 ==> final(state).my_spawn == old(state).my_spawn && final(state).enemy_spawn
            == old(state).enemy_spawn,
{
    if ticks == 1 {
        state.initialize(spawns);
    }
}

} // verus!
