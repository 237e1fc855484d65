//! Commands: requests to the spawn that are repeated until the host grants
//! them.

use crate::swamp::state::State;
use crate::world::{Creep, Part};
use vstd::prelude::*;

verus! {

/// A request to the spawn, and what to do once the host has answered it.
pub trait Command: Sized {
    /// The body that the command asks the spawn to make.
    fn body(&self) -> Vec<Part>;

    /// Takes the host's answer, the new creep or nothing, and says whether
    /// the command is done with.
    fn execute(&self, state: &mut State, spawned: Option<Creep>) -> bool;

    /// The command to try again on the next tick.
    fn clone(&self) -> Self;
}

/// Make one collector for the relay.
#[derive(Debug, PartialEq, Eq, Structural)]
pub struct CreateCollectorCreepCommand;

/// The body of a collector of the relay.
pub open spec fn collector_body() -> Seq<Part> {
    seq![Part::Carry, Part::Move, Part::Move]
}

/// The state once a command to make a collector has got its answer: a creep
/// that was made joins the collectors, and nothing else changes.
pub open spec fn state_after(before: State, spawned: Option<Creep>, after: State) -> bool {
    &&& after.my_spawn == before.my_spawn
    &&& after.enemy_spawn == before.enemy_spawn
    &&& after.my_side == before.my_side
    &&& after.spawn_containers == before.spawn_containers
    &&& after.queue == before.queue
    &&& after.initial_collectors@ == match spawned {
        Some(creep) => before.initial_collectors@.push(creep),
        None => before.initial_collectors@,
    }
}

impl Command for CreateCollectorCreepCommand {
    fn body(&self) -> (body: Vec<Part>)
        ensures
            body@ == collector_body(),
    {
        vec![Part::Carry, Part::Move, Part::Move]
    }

    fn execute(&self, state: &mut State, spawned: Option<Creep>) -> (done: bool)
        ensures
            done == spawned is Some,
            state_after(*old(state), spawned, *final(state)),
    {
        match spawned {
            Some(creep) => {
                state.initial_collectors.push(creep);
                true
            },
            None => false,
        }
    }

    fn clone(&self) -> (again: CreateCollectorCreepCommand)
        ensures
            again == *self,
    {
        CreateCollectorCreepCommand
    }
}

} // verus!
