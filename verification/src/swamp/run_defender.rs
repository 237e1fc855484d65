//! A defender: it stays near the spawn and engages whoever comes within the
//! threat range of the spawn.

use crate::global::utilities::{deref_opt, find_creep, object_to_creep};
use crate::intent::{Intent, Order, Target};
use crate::world::{Creep, Ranged, Structure};
use vstd::prelude::*;

verus! {

/// An enemy no farther than this from the spawn is engaged.
pub const THREAT_RANGE: u8 = 10;

/// A spawn left of this column has its staging area on its right.
pub const MIDDLE: u8 = 20;

/// The defenders stage this many columns from the spawn.
pub const STAGING_OFFSET: u8 = 5;

/// Whether something at the range `distance` is within the threshold
/// `threat_range`: no farther than it.
pub open spec fn within(distance: u8, threat_range: u8) -> bool {
    distance <= threat_range
}

/// The enemy to engage: the one that the host found closest by path to the
/// spawn, if it is within `threat_range` of the spawn and among `enemies`.
pub open spec fn threat(enemies: Seq<Creep>, closest: Option<Ranged>, threat_range: u8) -> Option<
    Creep,
> {
    match closest {
        Some(sighted) => if within(sighted.range, threat_range) {
            find_creep(enemies, sighted.id)
        } else {
            None
        },
        None => None,
    }
}

/// Where the defenders wait: in the row of the spawn, [`STAGING_OFFSET`]
/// columns towards the middle of the map.
pub open spec fn staging_area(spawn: Structure) -> Target {
    if spawn.x < MIDDLE {
        Target::Position((spawn.x + STAGING_OFFSET) as u8, spawn.y)
    } else {
        Target::Position((spawn.x - STAGING_OFFSET) as u8, spawn.y)
    }
}

/// A defender hits, shoots at and follows the enemy to engage, and walks to
/// the staging area while there is none.
pub open spec fn defender_orders(
    spawn: Structure,
    enemies: Seq<Creep>,
    closest: Option<Ranged>,
    threat_range: u8,
) -> Seq<Order> {
    match threat(enemies, closest, threat_range) {
        Some(enemy) => seq![
            Order::Always(Intent::Attack(enemy.id)),
            Order::Always(Intent::RangedAttack(enemy.id)),
            Order::Always(Intent::MoveTo(Target::Object(enemy.id))),
        ],
        None => seq![Order::Always(Intent::MoveTo(staging_area(spawn)))],
    }
}

/// The orders of a defender. `closest` is the enemy that the host found
/// closest by path to the spawn, with its range to the spawn.
pub fn run_defender(spawn: &Structure, enemies: &Vec<Creep>, closest: Option<Ranged>) -> (orders:
    Vec<Order>)
    ensures
        orders@ == defender_orders(*spawn, enemies@, closest, THREAT_RANGE),
{
    defend(spawn, enemies, closest, THREAT_RANGE)
}

/// The orders of a defender that engages within `threat_range` of the spawn.
pub fn defend(
    spawn: &Structure,
    enemies: &Vec<Creep>,
    closest: Option<Ranged>,
    threat_range: u8,
) -> (orders: Vec<Order>)
    ensures
        orders@ == defender_orders(*spawn, enemies@, closest, threat_range),
{
    match closest_enemy_within(enemies, closest, threat_range) {
        Some(enemy) => vec![
            Order::Always(Intent::Attack(enemy.id)),
            Order::Always(Intent::RangedAttack(enemy.id)),
            Order::Always(Intent::MoveTo(Target::Object(enemy.id))),
        ],
        None => vec![Order::Always(Intent::MoveTo(get_staging_area(spawn)))],
    }
}

/// The enemy to engage under the usual threat range, if there is one.
pub fn get_closest_enemy_within_threat_range<'a>(
    enemies: &'a Vec<Creep>,
    closest: Option<Ranged>,
) -> (enemy: Option<&'a Creep>)
    ensures
        deref_opt(enemy) == threat(enemies@, closest, THREAT_RANGE),
{
    closest_enemy_within(enemies, closest, THREAT_RANGE)
}

/// The enemy to engage under the given threat range, if there is one.
pub fn closest_enemy_within<'a>(
    enemies: &'a Vec<Creep>,
    closest: Option<Ranged>,
    threat_range: u8,
) -> (enemy: Option<&'a Creep>)
    ensures
        deref_opt(enemy) == threat(enemies@, closest, threat_range),
{
    match closest {
        Some(sighted) => {
            if sighted.range <= threat_range {
                object_to_creep(enemies, sighted.id)
            } else {
                None
            }
        },
        None => None,
    }
}

/// Where the defenders wait.
pub fn get_staging_area(spawn: &Structure) -> (area: Target)
    ensures
        area == staging_area(*spawn),
{
    let y: u8 = spawn.y;
    let x: u8 = if spawn.x < MIDDLE {
        spawn.x + STAGING_OFFSET
    } else {
        spawn.x - STAGING_OFFSET
    };
    Target::Position(x, y)
}

/// An enemy exactly at the threat range is engaged, and one a single tile
/// farther out is not, whatever the threat range.
pub proof fn lemma_threat_range_is_inclusive(
    spawn: Structure,
    enemies: Seq<Creep>,
    enemy: Ranged,
    threat_range: u8,
)
    requires
        find_creep(enemies, enemy.id) is Some,
    ensures
        enemy.range == threat_range ==> defender_orders(
            spawn,
            enemies,
            Some(enemy),
            threat_range,
        ) == seq![
            Order::Always(Intent::Attack(find_creep(enemies, enemy.id)->0.id)),
            Order::Always(Intent::RangedAttack(find_creep(enemies, enemy.id)->0.id)),
            Order::Always(Intent::MoveTo(Target::Object(find_creep(enemies, enemy.id)->0.id))),
        ],
        enemy.range == threat_range + 1 ==> defender_orders(
            spawn,
            enemies,
            Some(enemy),
            threat_range,
        ) == seq![Order::Always(Intent::MoveTo(staging_area(spawn)))],
{
}

} // verus!
