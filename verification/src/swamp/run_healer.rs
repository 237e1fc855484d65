//! A healer: it mends itself first, then the damaged friend nearest to it,
//! and waits near the spawn while everyone is whole.

use crate::intent::{Intent, Order, Target};
use crate::seqs::{lemma_filter_start, lemma_filter_step};
use crate::world::{lemma_values_empty, lemma_values_push, values, Creep, Nearest, Structure};
use vstd::prelude::*;

verus! {

/// A spawn left of this column has its staging area on its right.
pub const MIDDLE: u8 = 20;

/// The healers stage this many columns from the spawn.
pub const STAGING_OFFSET: u8 = 3;

/// Where the healers wait: in the row of the spawn, [`STAGING_OFFSET`]
/// columns towards the middle of the map.
pub open spec fn staging_area(spawn: Structure) -> Target {
    if spawn.x < MIDDLE {
        Target::Position((spawn.x + STAGING_OFFSET) as u8, spawn.y)
    } else {
        Target::Position((spawn.x - STAGING_OFFSET) as u8, spawn.y)
    }
}

/// A damaged healer heals itself. A whole one heals the damaged friend that
/// the host found nearest, from afar and closing in where that one is out of
/// reach, and walks to the staging area where the host found none.
pub open spec fn healer_orders(creep: Creep, spawn: Structure, nearest: Nearest) -> Seq<Order> {
    if creep.damaged() {
        seq![Order::Always(Intent::Heal(creep.id))]
    } else {
        match nearest.hurt {
            Some(friend) => seq![
                Order::Always(Intent::Heal(friend)),
                Order::IfNotInRange(Intent::RangedHeal(friend)),
                Order::IfNotInRange(Intent::MoveTo(Target::Object(friend))),
            ],
            None => seq![Order::Always(Intent::MoveTo(staging_area(spawn)))],
        }
    }
}

/// The orders of a healer.
pub fn run_healer(creep: &Creep, spawn: &Structure, nearest: Nearest) -> (orders: Vec<Order>)
    ensures
        orders@ == healer_orders(*creep, *spawn, nearest),
{
    if is_damaged(creep) {
        vec![Order::Always(Intent::Heal(creep.id))]
    } else {
        match nearest.hurt {
            Some(friend) => vec![
                Order::Always(Intent::Heal(friend)),
                Order::IfNotInRange(Intent::RangedHeal(friend)),
                Order::IfNotInRange(Intent::MoveTo(Target::Object(friend))),
            ],
            None => vec![Order::Always(Intent::MoveTo(get_staging_area(spawn)))],
        }
    }
}

/// Whether the creep has lost hit points.
pub fn is_damaged(creep: &Creep) -> (damaged: bool)
    ensures
        damaged == creep.damaged(),
{
    creep.hits < creep.hits_max
}

/// The damaged ones among `creeps`, in the order given.
pub fn get_damaged_friends<'a>(creeps: &'a Vec<Creep>) -> (damaged: Vec<&'a Creep>)
    ensures
        values(damaged@) == creeps@.filter(|c: Creep| c.damaged()),
{
    let mut damaged: Vec<&'a Creep> = Vec::new();
    let mut i: usize = 0;
    proof {
        lemma_filter_start(creeps@, |c: Creep| c.damaged());
        lemma_values_empty();
    }
    while i < creeps.len()
        invariant
            i <= creeps.len(),
            values(damaged@) == creeps@.take(i as int).filter(|c: Creep| c.damaged()),
        decreases creeps.len() - i,
    {
        proof {
            lemma_filter_step(creeps@, |c: Creep| c.damaged(), i as int);
            lemma_values_push(damaged@, &creeps[i as int]);
        }
        if is_damaged(&creeps[i]) {
            damaged.push(&creeps[i]);
        }
        i += 1;
    }
    proof {
        lemma_filter_start(creeps@, |c: Creep| c.damaged());
    }
    damaged
}

/// Where the healers wait.
pub fn get_staging_area(spawn: &Structure) -> (area: Target)
    ensures
        area == staging_area(*spawn),
{
    let x: u8 = if spawn.x < MIDDLE {
        spawn.x + STAGING_OFFSET
    } else {
        spawn.x - STAGING_OFFSET
    };
    Target::Position(x, spawn.y)
}

} // verus!
