//! The job that has the spawn make one creep.

use crate::spawn_and_swamp::jobs::Job;
use crate::spawn_and_swamp::state::State;
use crate::world::{body_cost, cost_of_body, Creep, Part, PartCosts};
use vstd::prelude::*;

verus! {

/// The kinds of creep that a job can ask for.
#[derive(Clone, Copy, Debug, PartialEq, Eq, Structural)]
pub enum CreepType {
    InitialCollector,
}

/// The request for one creep of a kind, with its body and what the body
/// costs.
#[derive(Debug)]
pub struct SpawnCreepJob {
    pub my_type: CreepType,
    pub body: Vec<Part>,
    pub cost: u32,
}

impl CreepType {
    /// The body that a creep of this kind is made with.
    pub open spec fn body_spec(&self) -> Seq<Part> {
        match self {
            CreepType::InitialCollector => seq![Part::Carry, Part::Move, Part::Move],
        }
    }
}

impl SpawnCreepJob {
    /// Whether the job is as `new` makes it for the given kind and prices.
    pub open spec fn is_fresh(&self, my_type: CreepType, costs: PartCosts) -> bool {
        &&& self.my_type == my_type
        &&& self.body@ == my_type.body_spec()
        &&& self.cost == body_cost(my_type.body_spec(), costs)
    }

    /// Whether the job asks the spawn on this tick: the spawn is making no
    /// creep, and holds at least what the body costs.
    pub open spec fn asks(&self, state: State) -> bool {
        state.creep_spawning is None && self.cost <= state.my_spawn.used_capacity
    }

    /// Whether `other` asks for the same creep at the same price.
    pub open spec fn same_as(&self, other: SpawnCreepJob) -> bool {
        &&& other.my_type == self.my_type
        &&& other.body@ == self.body@
        &&& other.cost == self.cost
    }

    /// The job that makes a creep of the given kind, with the body of that
    /// kind and the price of that body. The price must fit its counter.
    pub fn new(my_type: CreepType, costs: &PartCosts) -> (job: SpawnCreepJob)
        requires
            body_cost(my_type.body_spec(), *costs) <= u32::MAX,
        ensures
            job.is_fresh(my_type, *costs),
    {
        let body: Vec<Part> = match my_type {
            CreepType::InitialCollector => vec![Part::Carry, Part::Move, Part::Move],
        };
        assert(body@ =~= my_type.body_spec());
        let cost: u32 = cost_of_body(&body, costs);
        SpawnCreepJob { my_type, body, cost }
    }

    /// A job that asks for the same creep at the same price.
    pub fn again(&self) -> (job: SpawnCreepJob)
        ensures
            self.same_as(job),
    {
        let mut body: Vec<Part> = Vec::new();
        let mut i: usize = 0;
        while i < self.body.len()
            invariant
                i <= self.body.len(),
                body@ == self.body@.take(i as int),
            decreases self.body.len() - i,
        {
            body.push(self.body[i]);
            assert(body@ =~= self.body@.take(i as int + 1));
            i += 1;
        }
        assert(self.body@.take(self.body.len() as int) =~= self.body@);
        SpawnCreepJob { my_type: self.my_type, body, cost: self.cost }
    }
}

impl Job for SpawnCreepJob {
    fn request(&self, state: &State) -> (body: Option<Vec<Part>>)
        ensures
            !self.asks(*state) ==> body is None,
            self.asks(*state) ==> (body matches Some(parts) && parts@ == self.body@),
    {
        if state.creep_spawning.is_none() && self.cost <= state.my_spawn.used_capacity {
            Some(self.again().body)
        } else {
            None
        }
    }

    /// Where the job asked and the host made the creep, the state keeps the
    /// creep as the one in the making and the job is done. In every other
    /// case nothing changes and the same job is to be queued again.
    fn run(&self, state: &mut State, spawned: Option<Creep>) -> (next: Option<SpawnCreepJob>)
        ensures
            final(state).job_queue == old(state).job_queue,
            final(state).my_spawn == old(state).my_spawn,
            self.asks(*old(state)) && spawned is Some ==> next is None && final(state).creep_spawning == spawned,
            !(self.asks(*old(state)) && spawned is Some) ==> (next matches Some(job)
                && self.same_as(job)) && final(state).creep_spawning == old(state).creep_spawning,
    {
        if state.creep_spawning.is_none() && self.cost <= state.my_spawn.used_capacity {
            if spawned.is_some() {
                state.creep_spawning = spawned;
                return None;
            }
        }
        Some(self.again())
    }
}

/// A job whose request the host refused, or that could not ask, comes back
/// asking for the same body at the same price, and the state that it reads
/// is as it was: on the next tick it makes the same request.
pub proof fn lemma_refused_job_asks_again(job: SpawnCreepJob, next: SpawnCreepJob, state: State)
    requires
        job.same_as(next),
    ensures
        next.asks(state) == job.asks(state),
        next.body@ == job.body@,
        next.my_type == job.my_type,
{
}

} // verus!
