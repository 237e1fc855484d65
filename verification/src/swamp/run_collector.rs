//! A collector of the later strategies: it shuttles between the containers
//! and the spawn, and waits at the spawn while no container holds anything.

use crate::intent::{act_or_approach, try_or_approach, Intent, Order, Target};
use crate::world::{Creep, Nearest, Structure};
use vstd::prelude::*;

verus! {

/// A collector that carries anything brings it to the spawn. One with an
/// empty store draws from the container that the host found nearest among
/// those that hold resources, and walks back to the spawn where it found
/// none.
pub open spec fn collector_orders(creep: Creep, spawn: Structure, nearest: Nearest) -> Seq<Order> {
    if creep.has_load() {
        act_or_approach(Intent::Transfer(spawn.id), spawn.id)
    } else {
        match nearest.container {
            Some(container) => act_or_approach(Intent::Withdraw(container), container),
            None => seq![Order::Always(Intent::MoveTo(Target::Object(spawn.id)))],
        }
    }
}

/// The orders of a collector.
pub fn run_collector(creep: &Creep, spawn: &Structure, nearest: Nearest) -> (orders: Vec<Order>)
    ensures
        orders@ == collector_orders(*creep, *spawn, nearest),
{
    if have_energy(creep) {
        return try_or_approach(Intent::Transfer(spawn.id), spawn.id);
    }
    match nearest.container {
        Some(container) => try_or_approach(Intent::Withdraw(container), container),
        None => vec![Order::Always(Intent::MoveTo(Target::Object(spawn.id)))],
    }
}

/// Whether the creep carries anything.
pub fn have_energy(creep: &Creep) -> (loaded: bool)
    ensures
        loaded == creep.has_load(),
{
    creep.used_capacity > 0
}

} // verus!
