//! Jobs, and the queue that carries them from tick to tick.

pub mod spawn_creep;

use crate::spawn_and_swamp::state::State;
use crate::world::{Creep, Part};
use std::collections::VecDeque;
use vstd::prelude::*;

verus! {

/// The jobs to take on this tick, and the jobs queued for the next.
pub struct JobQueue<J> {
    jobs: VecDeque<J>,
    next_tick: VecDeque<J>,
}

/// Something to do that may take several ticks.
pub trait Job: Sized {
    /// The body that the job wants the spawn to make on this tick, if it
    /// wants any.
    fn request(&self, state: &State) -> Option<Vec<Part>>;

    /// Takes the host's answer to the request, the new creep or nothing, and
    /// returns the job to queue for the next tick, if any is left.
    fn run(&self, state: &mut State, spawned: Option<Creep>) -> Option<Self>;
}

impl<J> JobQueue<J> {
    /// The jobs to take on this tick, the next to take first.
    pub closed spec fn waiting(&self) -> Seq<J> {
        self.jobs@
    }

    /// The jobs queued for the next tick, in the order in which they were
    /// added.
    pub closed spec fn deferred(&self) -> Seq<J> {
        self.next_tick@
    }

    /// A queue without jobs.
    pub fn new() -> (queue: JobQueue<J>)
        ensures
            queue.waiting() == Seq::<J>::empty(),
            queue.deferred() == Seq::<J>::empty(),
    {
        JobQueue { jobs: VecDeque::new(), next_tick: VecDeque::new() }
    }

    /// Takes the next job of this tick out of the queue.
    pub fn take_job(&mut self) -> (job: Option<J>)
        ensures
            final(self).deferred() == old(self).deferred(),
            old(self).waiting().len() == 0 ==> job is None && final(self).waiting() == old(self).waiting(),
            old(self).waiting().len() > 0 ==> job == Some(old(self).waiting()[0]) && final(self).waiting() == old(self).waiting().skip(1),
    {
        let job = self.jobs.pop_front();
        assert(old(self).waiting().len() > 0 ==> self.jobs@ =~= old(self).waiting().skip(1));
        job
    }

    /// Queues a job for the next tick.
    pub fn add_job(&mut self, job: J)
        ensures
            final(self).waiting() == old(self).waiting(),
            final(self).deferred() == old(self).deferred().push(job),
    {
        self.next_tick.push_back(job);
    }

    /// Moves on to the next tick: the jobs queued for it become the jobs to
    /// take. Jobs of the tick before that nobody took are dropped.
    pub fn new_tick(&mut self)
        ensures
            final(self).waiting() == old(self).deferred(),
            final(self).deferred() == Seq::<J>::empty(),
    {
        self.jobs = VecDeque::new();
        std::mem::swap(&mut self.jobs, &mut self.next_tick);
    }

    /// Whether no job is left to take on this tick.
    pub fn no_jobs(&self) -> (none: bool)
        ensures
            none == (self.waiting().len() == 0),
    {
        self.jobs.len() == 0
    }
}

} // verus!
