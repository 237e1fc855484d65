//! What the bot knows from tick to tick.

use crate::global::utilities::{first_owned, get_spawn};
use crate::spawn_and_swamp::jobs::spawn_creep::SpawnCreepJob;
use crate::spawn_and_swamp::jobs::JobQueue;
use crate::world::{Creep, Structure};
use vstd::prelude::*;

verus! {
/// The queue of jobs, the player's spawn, and the creep in the making.

pub struct State {
    pub job_queue: JobQueue<SpawnCreepJob>,
    /// The player's spawn as the host showed it last.
    pub my_spawn: Structure,
    /// The creep that the spawn is making, if it is making one.
    pub creep_spawning: Option<Creep>,
}

impl State {
    /// A state around the first spawn of the player's that the host shows,
    /// with no jobs and no creep in the making. There is none while the host
    /// shows no such spawn.
    pub fn new(spawns: &Vec<Structure>) -> (state: Option<State>)
        ensures
            first_owned(spawns@, true) is None ==> state is None,
            first_owned(spawns@, true) matches Some(spawn) ==> (state matches Some(s) && s.my_spawn
                == spawn && s.creep_spawning is None
                && s.job_queue.waiting().len() == 0 && s.job_queue.deferred().len() == 0),
    {
        match get_spawn(spawns, true) {
            Some(my_spawn) => Some(
                State { job_queue: JobQueue::new(), my_spawn, creep_spawning: None },
            ),
            None => None,
        }
    }
}

} // verus!
