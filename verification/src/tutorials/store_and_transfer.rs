//! Carry energy from the container to the tower, and have the tower fire at
//! the enemy.

use crate::global::utilities::{find_last, last_of_side};
use crate::intent::{act_or_approach, Intent, Order, Target};
use crate::world::{Creep, Structure};
use vstd::prelude::*;

verus! {

/// The four objects of the arena, by id.
#[derive(Clone, Copy, Debug, PartialEq, Eq, Structural)]
pub struct Data {
    pub my_creep: u64,
    pub container: u64,
    pub tower: u64,
    pub enemy: u64,
}

/// The orders of one tick.
pub struct Plan {
    pub creep: Vec<Order>,
    pub tower: Vec<Order>,
}

/// Whether the host shows all that the arena needs: a creep of either side,
/// a container and a tower.
pub open spec fn complete(creeps: Seq<Creep>, containers: Seq<Structure>, towers: Seq<Structure>) -> bool {
    &&& last_of_side(creeps, true) is Some
    &&& last_of_side(creeps, false) is Some
    &&& containers.len() > 0
    &&& towers.len() > 0
}

/// The creep draws from the container and hands on to the tower, walking up
/// to either where it is out of range.
pub open spec fn creep_orders(data: Data) -> Seq<Order> {
    act_or_approach(Intent::Withdraw(data.container), data.container) + act_or_approach(
        Intent::Transfer(data.tower),
        data.tower,
    )
}

impl Data {
    /// Picks the last of the player's creeps, of the enemy's creeps, of the
    /// containers and of the towers that the host shows. There is no result
    /// while any of them is missing.
    pub fn init(creeps: &Vec<Creep>, containers: &Vec<Structure>, towers: &Vec<Structure>) -> (data:
        Option<Data>)
        ensures
            !complete(creeps@, containers@, towers@) ==> data is None,
            complete(creeps@, containers@, towers@) ==> data == Some(
                Data {
                    my_creep: last_of_side(creeps@, true)->0.id,
                    container: containers@.last().id,
                    tower: towers@.last().id,
                    enemy: last_of_side(creeps@, false)->0.id,
                },
            ),
    {
        let my_creep = match find_last(creeps, true) {
            Some(creep) => creep.id,
            None => {
                return None;
            },
        };
        let enemy = match find_last(creeps, false) {
            Some(creep) => creep.id,
            None => {
                return None;
            },
        };
        if containers.len() == 0 || towers.len() == 0 {
            return None;
        }
        Some(
            Data {
                my_creep,
                container: containers[containers.len() - 1].id,
                tower: towers[towers.len() - 1].id,
                enemy,
            },
        )
    }
}

/// The orders of one tick: those of the creep, and the tower's order to
/// fire at the enemy.
pub fn run(data: &Data) -> (plan: Plan)
    ensures
        plan.creep@ == creep_orders(*data),
        plan.tower@ == seq![Order::Always(Intent::Attack(data.enemy))],
{
    let creep: Vec<Order> = vec![
        Order::Always(Intent::Withdraw(data.container)),
        Order::IfNotInRange(Intent::MoveTo(Target::Object(data.container))),
        Order::Always(Intent::Transfer(data.tower)),
        Order::IfNotInRange(Intent::MoveTo(Target::Object(data.tower))),
    ];
    assert(creep@ =~= creep_orders(*data));
    Plan { creep, tower: vec![Order::Always(Intent::Attack(data.enemy))] }
}

} // verus!
