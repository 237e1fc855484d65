//! The command that works out the body of the next creep.

use crate::modes::spawn_and_swamp::error::CustomError;
use crate::modes::spawn_and_swamp::role::Role;
use crate::modes::spawn_and_swamp::state::State;
use crate::world::{body_cost, cost_of_body, lemma_body_cost_nonnegative, Part, PartCosts};
use vstd::prelude::*;

verus! {

/// A request for a creep of one role, with the body and the price that were
/// worked out for it.
pub struct SpawnerCommand {
    pub role: Role,
    pub body: Vec<Part>,
    pub cost: u32,
    pub energy_available: u32,
}

/// A body of `n` parts of one kind.
pub open spec fn all_of(part: Part, n: nat) -> Seq<Part> {
    Seq::new(n, |i: int| part)
}

/// The body of a worker: its carry parts, then `moves` move parts.
pub open spec fn worker_body(carry_parts: nat, moves: nat) -> Seq<Part> {
    all_of(Part::Carry, carry_parts) + all_of(Part::Move, moves)
}

/// One move part more costs the price of one move part more.
pub proof fn lemma_one_more_move(carry_parts: nat, moves: nat, costs: PartCosts)
    ensures
        worker_body(carry_parts, moves + 1) == worker_body(carry_parts, moves).push(Part::Move),
        body_cost(worker_body(carry_parts, moves + 1), costs) == body_cost(
            worker_body(carry_parts, moves),
            costs,
        ) + costs.move_part,
        worker_body(carry_parts, 0) == all_of(Part::Carry, carry_parts),
{
    let longer = worker_body(carry_parts, moves + 1);
    assert(longer =~= worker_body(carry_parts, moves).push(Part::Move));
    assert(longer.drop_last() =~= worker_body(carry_parts, moves));
    assert(worker_body(carry_parts, 0) =~= all_of(Part::Carry, carry_parts));
}

/// What carrying out a command for `role` leaves behind when the spawn
/// holds `energy`.
pub open spec fn worked_out(
    role: Role,
    energy: u32,
    costs: PartCosts,
    command: SpawnerCommand,
    result: Result<(), CustomError>,
) -> bool {
    let Role::Worker(n) = role;
    let carried = body_cost(all_of(Part::Carry, n as nat), costs);
    &&& command.energy_available == energy
    &&& command.cost == body_cost(command.body@, costs)
    &&& if carried > energy {
        &&& result == Err::<(), CustomError>(
            CustomError::NotEnoughEnergy { needed: carried as u32, had: energy },
        )
        &&& command.body@ == all_of(Part::Carry, n as nat)
    } else {
        &&& result is Ok
        &&& command.body@.len() >= n
        &&& command.body@ == worker_body(n as nat, (command.body@.len() - n) as nat)
        &&& command.cost <= energy
        &&& energy - command.cost < costs.move_part
    }
}

impl SpawnerCommand {
    /// A command for the given role, with nothing worked out yet.
    pub fn new(role: Role) -> (command: SpawnerCommand)
        ensures
            command.role == role,
            command.body@.len() == 0,
            command.cost == 0,
            command.energy_available == 0,
    {
        SpawnerCommand { role, body: Vec::new(), cost: 0, energy_available: 0 }
    }

    /// Sets the price to the sum of the prices of the parts of the body.
    pub fn update_cost(&mut self, costs: &PartCosts)
        requires
            body_cost(old(self).body@, *costs) <= u32::MAX,
        ensures
            final(self).cost == body_cost(old(self).body@, *costs),
            final(self).body == old(self).body,
            final(self).role == old(self).role,
            final(self).energy_available == old(self).energy_available,
    {
        self.cost = cost_of_body(&self.body, costs);
    }

    /// Works out the body of a worker against the energy in the player's
    /// spawn.
    ///
    /// The body begins with the carry parts that the role asks for. If those
    /// alone cost more than the spawn holds, the command fails and names
    /// both sums. Otherwise move parts are added for as long as the energy
    /// pays for one more. Without a spawn of the player's the command
    /// fails and is left as it was.
    ///
    /// The carry parts must have a price that fits the counter, and a move
    /// part must not be free, or there would be no end to adding them.
    pub fn execute(&mut self, state: &State, costs: &PartCosts) -> (result: Result<(), CustomError>)
        requires
            old(self).role matches Role::Worker(n) && body_cost(all_of(Part::Carry, n as nat), *costs)
                <= u32::MAX,
            costs.move_part > 0,
        ensures
            final(self).role == old(self).role,
            state.my_spawn is None ==> result == Err::<(), CustomError>(CustomError::NoSpawn)
                && *final(self) == *old(self),
            state.my_spawn matches Some(spawn) ==> worked_out(
                old(self).role,
                spawn.used_capacity,
                *costs,
                *final(self),
                result,
            ),
    {
        let spawn = match state.my_spawn {
            Some(spawn) => spawn,
            None => {
                return Err(CustomError::NoSpawn);
            },
        };
        match self.role {
            Role::Worker(carry_parts) => {
                let part = Part::Carry;
                self.body = vec![part; carry_parts];
                assert(self.body@ =~= all_of(Part::Carry, carry_parts as nat));
                self.update_cost(costs);
                self.energy_available = spawn.used_capacity;
                if self.cost > self.energy_available {
                    let needed: u32 = self.cost;
                    let had: u32 = self.energy_available;
                    Err(CustomError::NotEnoughEnergy { needed, had })
                } else {
                    let ghost mut moves: nat = 0;
                    proof {
                        lemma_one_more_move(carry_parts as nat, 0, *costs);
                    }
                    loop
                        invariant
                            self.role == old(self).role,
                            self.energy_available == spawn.used_capacity,
                            self.body@ == worker_body(carry_parts as nat, moves),
                            self.body@.len() == carry_parts + moves,
                            self.cost == body_cost(self.body@, *costs),
                            self.cost <= self.energy_available,
                            costs.move_part > 0,
                        ensures
                            self.energy_available - self.cost < costs.move_part,
                        decreases self.energy_available - self.cost,
                    {
                        if costs.cost(Part::Move) <= self.energy_available - self.cost {
                            proof {
                                lemma_one_more_move(carry_parts as nat, moves, *costs);
                                moves = moves + 1;
                            }
                            self.body.push(Part::Move);
                            self.cost += costs.cost(Part::Move);
                        } else {
                            break ;
                        }
                    }
                    Ok(())
                }
            },
        }
    }
}

/// The command works the same body out again while nothing that it reads
/// has changed: two bodies that both meet its promise for the same energy
/// and prices are the same body.
pub proof fn lemma_worked_out_body_is_unique(
    carry_parts: nat,
    first: nat,
    second: nat,
    energy: u32,
    costs: PartCosts,
)
    requires
        costs.move_part > 0,
        body_cost(worker_body(carry_parts, first), costs) <= energy,
        energy - body_cost(worker_body(carry_parts, first), costs) < costs.move_part,
        body_cost(worker_body(carry_parts, second), costs) <= energy,
        energy - body_cost(worker_body(carry_parts, second), costs) < costs.move_part,
    ensures
        first == second,
        worker_body(carry_parts, first) == worker_body(carry_parts, second),
{
    if first < second {
        lemma_moves_cost_more(carry_parts, first, second, costs);
    } else if second < first {
        lemma_moves_cost_more(carry_parts, second, first, costs);
    }
}

/// A worker with more move parts costs more, by at least the price of one
/// move part.
pub proof fn lemma_moves_cost_more(carry_parts: nat, fewer: nat, more: nat, costs: PartCosts)
    requires
        fewer < more,
    ensures
        body_cost(worker_body(carry_parts, more), costs) >= body_cost(
            worker_body(carry_parts, fewer),
            costs,
        ) + costs.move_part,
    decreases more - fewer,
{
    lemma_one_more_move(carry_parts, (more - 1) as nat, costs);
    if fewer < more - 1 {
        lemma_moves_cost_more(carry_parts, fewer, (more - 1) as nat, costs);
    }
}

} // verus!
