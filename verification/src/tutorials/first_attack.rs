//! Attack the enemy creep.

use crate::global::utilities::{find_first, first_of_side};
use crate::intent::{act_or_approach, try_or_approach, Assignment, Intent, Order};
use crate::world::Creep;
use vstd::prelude::*;

verus! {

/// What the player's creep does: it attacks the first enemy creep, walking
/// up to it where it is out of range, and rests where there is none.
pub open spec fn attack_orders(creeps: Seq<Creep>) -> Seq<Order> {
    match first_of_side(creeps, false) {
        Some(enemy) => act_or_approach(Intent::Attack(enemy.id), enemy.id),
        None => Seq::empty(),
    }
}

/// The orders for the first of the player's creeps. There is nothing to do
/// while the host shows no creep of the player's.
pub fn run(creeps: &Vec<Creep>) -> (step: Option<Assignment>)
    ensures
        first_of_side(creeps@, true) is None ==> step is None,
        first_of_side(creeps@, true) matches Some(mine) ==> (step matches Some(s) && s.actor
            == mine.id && s.orders@ == attack_orders(creeps@)),
{
    let my_creep = match find_first(creeps, true) {
        Some(creep) => creep,
        None => {
            return None;
        },
    };
    let orders: Vec<Order> = match find_first(creeps, false) {
        Some(enemy) => try_or_approach(Intent::Attack(enemy.id), enemy.id),
        None => Vec::new(),
    };
    Some(Assignment { actor: my_creep.id, orders })
}

} // verus!
