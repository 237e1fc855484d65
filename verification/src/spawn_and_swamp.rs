//! The swamp arena with a queue of jobs: what cannot be done on one tick is
//! queued again for the next.

pub mod jobs;
pub mod state;

use crate::spawn_and_swamp::jobs::spawn_creep::{CreepType, SpawnCreepJob};
use crate::spawn_and_swamp::state::State;
use crate::world::{body_cost, PartCosts};
use vstd::prelude::*;

verus! {

/// Begins a tick. On the first tick the job that makes the first collector
/// is queued, for which the price of its body must fit the counter. Then the
/// jobs queued for this tick become the jobs to take, and the queue for the
/// next tick is empty.
///
/// The caller then takes one job after the other with `take_job`, asks the
/// spawn for what the job requests, hands the answer to the job's `run`, and
/// queues the job that comes back, if any, with `add_job`.
pub fn run(state: &mut State, tick: u32, costs: &PartCosts)
    requires
        tick == 1 ==> body_cost(CreepType::InitialCollector.body_spec(), *costs) <= u32::MAX,
    ensures
        final(state).job_queue.deferred() == Seq::<SpawnCreepJob>::empty(),
        tick != 1 ==> final(state).job_queue.waiting() == old(state).job_queue.deferred(),
        tick == 1 ==> final(state).job_queue.waiting().len() == old(state).job_queue.deferred().len() + 1 && final(state).job_queue.waiting().drop_last() == old(state).job_queue.deferred() && final(state).job_queue.waiting().last().is_fresh(
            CreepType::InitialCollector,
            *costs,
        ),
        final(state).my_spawn == old(state).my_spawn,
        final(state).creep_spawning == old(state).creep_spawning,
{
    if tick == 1 {
        state.job_queue.add_job(SpawnCreepJob::new(CreepType::InitialCollector, costs));
    }
    state.job_queue.new_tick();
}

} // verus!
