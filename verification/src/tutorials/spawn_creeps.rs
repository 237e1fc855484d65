//! Make two creeps and send each to a flag of its own.

use crate::intent::{Intent, Order, Target};
use crate::world::{Creep, CreepView, Flag, Part, Structure};
use vstd::prelude::*;

verus! {

/// This many creeps are made.
pub const WANTED: usize = 2;

/// What the host shows of the arena.
pub struct Data {
    pub spawn: Structure,
    pub flags: Vec<Flag>,
    pub creeps: Vec<Creep>,
}

/// What to ask the spawn for, and the flag to send the new creep to, if
/// there is a flag left for it.
pub struct SpawnRequest {
    pub body: Vec<Part>,
    pub target: Option<u64>,
}

/// The decisions of one tick: what to ask the spawn for, if anything, and
/// `creeps[i]` for the `i`-th creep.
pub struct Plan {
    pub spawn: Option<SpawnRequest>,
    pub creeps: Vec<Vec<Order>>,
}

/// A creep walks to the target that is kept on it, and rests without one.
pub open spec fn creep_orders(creep: Creep) -> Seq<Order> {
    match creep.target_id {
        Some(target) => seq![Order::Always(Intent::MoveTo(Target::Object(target)))],
        None => Seq::empty(),
    }
}

/// The flag for the next creep: the one whose place in the list is the
/// number of creeps so far.
pub open spec fn next_flag(data: Data) -> Option<u64> {
    if data.creeps.len() < data.flags.len() {
        Some(data.flags[data.creeps.len() as int].id)
    } else {
        None
    }
}

impl Data {
    /// Takes the first spawn and the lists of flags and creeps as the host
    /// shows them. There is no result while the host shows no spawn.
    pub fn init(spawns: &Vec<Structure>, flags: Vec<Flag>, creeps: Vec<Creep>) -> (data: Option<
        Data,
    >)
        ensures
            spawns.len() == 0 ==> data is None,
            spawns.len() > 0 ==> (data matches Some(d) && d.spawn == spawns[0] && d.flags == flags
                && d.creeps == creeps),
    {
        if spawns.len() == 0 {
            None
        } else {
            Some(Data { spawn: spawns[0], flags, creeps })
        }
    }
}

/// Marks a creep that the spawn has just begun to make with its target.
pub fn send_to(new_creep: &mut Creep, target: u64)
    ensures
        final(new_creep)@ == (CreepView { target_id: Some(target), ..old(new_creep)@ }),
{
    new_creep.target_id = Some(target);
}

/// One tick: while there are fewer than [`WANTED`] creeps the spawn is asked
/// for one more, made of a single move part; every creep walks to its
/// target.
pub fn run(data: &Data) -> (plan: Plan)
    ensures
        data.creeps.len() >= WANTED ==> plan.spawn is None,
        data.creeps.len() < WANTED ==> (plan.spawn matches Some(request) && request.body@
            == seq![Part::Move] && request.target == next_flag(*data)),
        plan.creeps.len() == data.creeps.len(),
        forall|k: int|
            0 <= k < data.creeps.len() ==> (#[trigger] plan.creeps[k])@ == creep_orders(
                data.creeps[k],
            ),
{
    let screeps_count: usize = data.creeps.len();
    let spawn: Option<SpawnRequest> = if screeps_count < WANTED {
        let target: Option<u64> = if screeps_count < data.flags.len() {
            Some(data.flags[screeps_count].id)
        } else {
            None
        };
        Some(SpawnRequest { body: vec![Part::Move], target })
    } else {
        None
    };
    let mut creeps: Vec<Vec<Order>> = Vec::new();
    let mut i: usize = 0;
    while i < data.creeps.len()
        invariant
            i <= data.creeps.len(),
            creeps.len() == i,
            forall|k: int|
                0 <= k < i ==> (#[trigger] creeps[k])@ == creep_orders(data.creeps[k]),
        decreases data.creeps.len() - i,
    {
        match data.creeps[i].target_id {
            Some(target) => creeps.push(vec![Order::Always(Intent::MoveTo(Target::Object(target)))]),
            None => creeps.push(Vec::new()),
        }
        i += 1;
    }
    Plan { spawn, creeps }
}

} // verus!
