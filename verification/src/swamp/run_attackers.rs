//! An attacker of the later strategies: it waits in the staging area until
//! the group is large enough, then goes for the nearest enemy within its
//! threat range, and for the enemy's spawn where none is that near.

use crate::intent::{Intent, Order, Target};
use crate::seqs::{lemma_filter_start, lemma_filter_step};
use crate::swamp::squad::{
    calculate_distance_from_spawn, first_shortest, get_index_of_shortest_distance,
    lemma_first_shortest_unique, ranges,
};
use crate::world::{Ranged, Structure};
use vstd::prelude::*;

verus! {

/// The attackers set out once there are this many of them.
pub const GROUP_SIZE_BEFORE_ATTACK: u8 = 8;

/// An enemy no farther than this from an attacker is attacked first.
pub const THREAT_RANGE: u8 = 5;

/// The attackers stage this many rows above the spawn.
pub const STAGING_OFFSET: u8 = 5;

/// The enemies within [`THREAT_RANGE`], in the order of the list.
pub open spec fn threats(enemies: Seq<Ranged>) -> Seq<Ranged> {
    enemies.filter(|e: Ranged| e.range <= THREAT_RANGE)
}

/// What to attack: the nearest enemy within the threat range, the first of
/// them in the list where several are as near, and the enemy's spawn where
/// none is within the threat range.
pub open spec fn prey(enemies: Seq<Ranged>, enemy_spawn: Structure) -> u64 {
    if threats(enemies).len() > 0 {
        threats(enemies)[choose|i: int| first_shortest(ranges(threats(enemies)), i)].id
    } else {
        enemy_spawn.id
    }
}

/// Where the attackers wait: [`STAGING_OFFSET`] rows above the spawn.
pub open spec fn staging_area(spawn: Structure) -> Target {
    Target::Position(spawn.x, (spawn.y - STAGING_OFFSET) as u8)
}

/// While the group is smaller than [`GROUP_SIZE_BEFORE_ATTACK`] an attacker
/// walks to the staging area. After that it hits, shoots at and follows its
/// prey.
pub open spec fn attacker_orders(
    have_attackers: u8,
    enemies: Seq<Ranged>,
    enemy_spawn: Structure,
    my_spawn: Structure,
) -> Seq<Order> {
    if have_attackers >= GROUP_SIZE_BEFORE_ATTACK {
        let target = prey(enemies, enemy_spawn);
        seq![
            Order::Always(Intent::Attack(target)),
            Order::Always(Intent::RangedAttack(target)),
            Order::Always(Intent::MoveTo(Target::Object(target))),
        ]
    } else {
        seq![Order::Always(Intent::MoveTo(staging_area(my_spawn)))]
    }
}

/// The orders of an attacker. `enemies` are the enemy's creeps, each with
/// its range from this attacker as the host measured it. The spawn must
/// stand low enough on the map for the staging area to be on it.
pub fn run_attackers(
    have_attackers: u8,
    enemies: &Vec<Ranged>,
    enemy_spawn: &Structure,
    my_spawn: &Structure,
) -> (orders: Vec<Order>)
    requires
        have_attackers < GROUP_SIZE_BEFORE_ATTACK ==> my_spawn.y >= STAGING_OFFSET,
    ensures
        orders@ == attacker_orders(have_attackers, enemies@, *enemy_spawn, *my_spawn),
{
    if have_attackers >= GROUP_SIZE_BEFORE_ATTACK {
        let enemies_within_threat_range = get_enemies_within_threat_range(enemies);
        let distances = calculate_distance_from_spawn(&enemies_within_threat_range);
        let target: u64 = match get_index_of_shortest_distance(&distances) {
            Some(nearest) => {
                proof {
                    lemma_first_shortest_unique(
                        ranges(threats(enemies@)),
                        choose|i: int| first_shortest(ranges(threats(enemies@)), i),
                        nearest as int,
                    );
                }
                enemies_within_threat_range[nearest].id
            },
            None => enemy_spawn.id,
        };
        vec![
            Order::Always(Intent::Attack(target)),
            Order::Always(Intent::RangedAttack(target)),
            Order::Always(Intent::MoveTo(Target::Object(target))),
        ]
    } else {
        vec![Order::Always(Intent::MoveTo(create_staging_area(my_spawn)))]
    }
}

/// The enemies within the threat range of the attacker.
pub fn get_enemies_within_threat_range(enemies: &Vec<Ranged>) -> (close: Vec<Ranged>)
    ensures
        close@ == threats(enemies@),
{
    let mut close: Vec<Ranged> = Vec::new();
    let mut i: usize = 0;
    proof {
        lemma_filter_start(enemies@, |e: Ranged| e.range <= THREAT_RANGE);
    }
    while i < enemies.len()
        invariant
            i <= enemies.len(),
            close@ == enemies@.take(i as int).filter(|e: Ranged| e.range <= THREAT_RANGE),
        decreases enemies.len() - i,
    {
        proof {
            lemma_filter_step(enemies@, |e: Ranged| e.range <= THREAT_RANGE, i as int);
        }
        if enemies[i].range <= THREAT_RANGE {
            close.push(enemies[i]);
        }
        i += 1;
    }
    proof {
        lemma_filter_start(enemies@, |e: Ranged| e.range <= THREAT_RANGE);
    }
    close
}

/// Where the attackers wait.
pub fn create_staging_area(spawn: &Structure) -> (area: Target)
    requires
        spawn.y >= STAGING_OFFSET,
    ensures
        area == staging_area(*spawn),
{
    Target::Position(spawn.x, spawn.y - STAGING_OFFSET)
}

/// An enemy exactly at the threat range counts as a threat, and one a
/// single tile farther out does not.
pub proof fn lemma_threat_range_is_inclusive(enemy: Ranged, enemy_spawn: Structure)
    ensures
        enemy.range == THREAT_RANGE ==> prey(seq![enemy], enemy_spawn) == enemy.id,
        enemy.range == THREAT_RANGE + 1 ==> prey(seq![enemy], enemy_spawn) == enemy_spawn.id,
{
    let one = seq![enemy];
    let pred = |e: Ranged| e.range <= THREAT_RANGE;
    lemma_filter_start(one, pred);
    lemma_filter_step(one, pred, 0);
    assert(one.take(1) == one);
    if enemy.range <= THREAT_RANGE {
        assert(threats(one) == seq![enemy]);
        assert(ranges(threats(one)) =~= seq![enemy.range]);
        assert(first_shortest(ranges(threats(one)), 0));
        let i = choose|i: int| first_shortest(ranges(threats(one)), i);
        lemma_first_shortest_unique(ranges(threats(one)), i, 0);
    } else {
        assert(threats(one) == Seq::<Ranged>::empty());
    }
}

} // verus!
