//! The squad strategy for the swamp arena: one collector, then attackers
//! that wait for each other before they go for the enemy nearest to the
//! player's spawn.

use crate::global::role::Role;
use crate::global::utilities::{deref_opt, find_creep, first_owned, get_closest_creep, get_spawn};
use crate::intent::{Intent, Order, Target};
use crate::seqs::{lemma_filter_start, lemma_filter_step};
use crate::swamp::rush::{collector_orders, run_collector, CreepTypes, Missing, Plan};
use crate::world::{
    lemma_values_empty, lemma_values_push, nearest_at, nearest_for, values, Creep, Nearest, Ranged,
    Structure,
};
use vstd::prelude::*;

verus! {

/// The attackers regroup when the one nearest to the spawn is more than
/// this much nearer than every other.
pub const MAX_SPREAD: u8 = 4;

/// Whether the attackers have drifted apart: there are at least two, and one
/// of them is more than [`MAX_SPREAD`] nearer to the spawn than each of the
/// others.
pub open spec fn drifted_apart(distances: Seq<u8>) -> bool {
    distances.len() >= 2 && exists|i: int|
        0 <= i < distances.len() && lags_all(distances, i)
}

/// Everyone but the `i`-th is more than [`MAX_SPREAD`] farther out than the
/// `i`-th.
pub open spec fn lags_all(distances: Seq<u8>, i: int) -> bool {
    forall|j: int| 0 <= j < distances.len() && j != i ==> distances[j] - distances[i] > MAX_SPREAD
}

/// The `i`-th distance is the first that is as small as any.
pub open spec fn first_shortest(distances: Seq<u8>, i: int) -> bool {
    &&& 0 <= i < distances.len()
    &&& forall|j: int| 0 <= j < distances.len() ==> distances[i] <= distances[j]
    &&& forall|j: int| 0 <= j < i ==> distances[i] < distances[j]
}

/// The ranges of a list of sighted objects.
pub open spec fn ranges(objects: Seq<Ranged>) -> Seq<u8> {
    objects.map_values(|o: Ranged| o.range)
}

/// What an attacker does.
///
/// While the squad has drifted apart it walks to the attacker nearest to the
/// spawn, firing around itself. Else it shoots at the enemy nearest to the
/// spawn, fires around itself where that one is out of range, and follows
/// it; with no enemy left it walks to the enemy's spawn and shoots at it.
/// In every case it heals itself last.
pub open spec fn attacker_orders(
    creep: Creep,
    enemy_spawn: Structure,
    other_attackers: Seq<Ranged>,
    closest_enemy_to_spawn: Option<u64>,
) -> Seq<Order> {
    let heal = seq![Order::Always(Intent::Heal(creep.id))];
    if drifted_apart(ranges(other_attackers)) {
        let leader = choose|i: int| first_shortest(ranges(other_attackers), i);
        seq![
            Order::Always(Intent::MoveTo(Target::Object(other_attackers[leader].id))),
            Order::Always(Intent::RangedMassAttack),
        ] + heal
    } else {
        match closest_enemy_to_spawn {
            Some(enemy) => seq![
                Order::Always(Intent::RangedAttack(enemy)),
                Order::IfNotInRange(Intent::RangedMassAttack),
                Order::Always(Intent::MoveTo(Target::Object(enemy))),
            ] + heal,
            None => seq![
                Order::Always(Intent::MoveTo(Target::Object(enemy_spawn.id))),
                Order::Always(Intent::RangedAttack(enemy_spawn.id)),
            ] + heal,
        }
    }
}

/// What one of the player's creeps does on a tick. A creep that is neither
/// collector nor attacker is left alone.
pub open spec fn creep_orders(
    creep: Creep,
    my_spawn: Structure,
    enemy_spawn: Structure,
    my_attackers: Seq<Ranged>,
    closest_enemy_to_spawn: Option<u64>,
    nearest: Nearest,
) -> Seq<Order> {
    match Role::of_creep(creep) {
        Role::Collector => collector_orders(creep, my_spawn, nearest),
        Role::Attacker => attacker_orders(creep, enemy_spawn, my_attackers, closest_enemy_to_spawn),
        _ => Seq::empty(),
    }
}

/// Counts `creeps` against the minimums of this strategy: one collector, a
/// hundred attackers.
pub fn init(creeps: &Vec<Creep>) -> (types: CreepTypes)
    ensures
        types == CreepTypes::counted(creeps@, 1, 100),
{
    CreepTypes::with_targets(creeps, 1, 100)
}

/// The ranges of the attackers to the spawn, in the order of the list.
pub fn calculate_distance_from_spawn(creeps: &Vec<Ranged>) -> (distances: Vec<u8>)
    ensures
        distances@ == ranges(creeps@),
{
    let mut distances: Vec<u8> = Vec::new();
    let mut i: usize = 0;
    while i < creeps.len()
        invariant
            i <= creeps.len(),
            distances.len() == i,
            forall|k: int| 0 <= k < i ==> distances[k] == creeps[k].range,
        decreases creeps.len() - i,
    {
        distances.push(creeps[i].range);
        i += 1;
    }
    assert(distances@ =~= ranges(creeps@));
    distances
}

/// Whether the attackers should regroup.
pub fn should_creeps_regroup(distances_to_spawn: &Vec<u8>) -> (regroup: bool)
    ensures
        regroup == drifted_apart(distances_to_spawn@),
{
    if distances_to_spawn.len() < 2 {
        return false;
    }
    let first: u8 = distances_to_spawn[0];
    let second: u8 = distances_to_spawn[1];
    let mut lowest: u8 = if first <= second {
        first
    } else {
        second
    };
    let mut next: u8 = if first <= second {
        second
    } else {
        first
    };
    let ghost mut at: int = if first <= second {
        0
    } else {
        1
    };
    let mut i: usize = 2;
    while i < distances_to_spawn.len()
        invariant
            2 <= i <= distances_to_spawn.len(),
            0 <= at < i,
            distances_to_spawn[at] == lowest,
            lowest <= next,
            forall|j: int| 0 <= j < i && j != at ==> distances_to_spawn[j] >= next,
            exists|j: int| 0 <= j < i && j != at && distances_to_spawn[j] == next,
        decreases distances_to_spawn.len() - i,
    {
        let ghost old_at = at;
        let ghost witness = choose|j: int| 0 <= j < i && j != at && distances_to_spawn[j] == next;
        let distance: u8 = distances_to_spawn[i];
        if distance < lowest {
            next = lowest;
            lowest = distance;
            proof {
                at = i as int;
            }
            assert(old_at != at && distances_to_spawn[old_at] == next);
        } else if distance < next {
            next = distance;
            assert(i as int != at && distances_to_spawn[i as int] == next);
        } else {
            assert(witness != at && distances_to_spawn[witness] == next);
        }
        i += 1;
    }
    let regroup: bool = next - lowest > MAX_SPREAD;
    proof {
        let d = distances_to_spawn@;
        let witness = choose|j: int| 0 <= j < d.len() && j != at && d[j] == next;
        if regroup {
            assert(lags_all(d, at));
        } else {
            assert forall|k: int| 0 <= k < d.len() implies !lags_all(d, k) by {
                if k == at {
                    assert(d[witness] - d[k] <= MAX_SPREAD);
                } else {
                    assert(d[at] - d[k] <= MAX_SPREAD);
                }
            }
        }
    }
    regroup
}

/// The place in the list of the attacker nearest to the spawn, the first of
/// them where several are as near. There is none in an empty list.
pub fn get_index_of_shortest_distance(distances_to_spawn: &Vec<u8>) -> (index: Option<usize>)
    ensures
        distances_to_spawn.len() == 0 ==> index is None,
        distances_to_spawn.len() > 0 ==> (index matches Some(i) && first_shortest(
            distances_to_spawn@,
            i as int,
        )),
{
    if distances_to_spawn.len() == 0 {
        return None;
    }
    let mut best: usize = 0;
    let mut i: usize = 1;
    while i < distances_to_spawn.len()
        invariant
            1 <= i <= distances_to_spawn.len(),
            0 <= best < i,
            forall|j: int| 0 <= j < i ==> distances_to_spawn[best as int] <= distances_to_spawn[j],
            forall|j: int| 0 <= j < best ==> distances_to_spawn[best as int] < distances_to_spawn[j],
        decreases distances_to_spawn.len() - i,
    {
        if distances_to_spawn[i] < distances_to_spawn[best] {
            best = i;
        }
        i += 1;
    }
    Some(best)
}

/// Only one place in a list is the first shortest.
pub proof fn lemma_first_shortest_unique(distances: Seq<u8>, i: int, j: int)
    requires
        first_shortest(distances, i),
        first_shortest(distances, j),
    ensures
        i == j,
{
    if i < j {
        assert(distances[j] < distances[i]);
        assert(distances[i] <= distances[j]);
    } else if j < i {
        assert(distances[i] < distances[j]);
        assert(distances[j] <= distances[i]);
    }
}

/// The enemy that the host found closest by path to the spawn, where
/// `closest` is the id that it answered with, if it found any.
pub fn get_closest_enemy_to_spawn<'a>(enemies: &'a Vec<Creep>, closest: Option<u64>) -> (found:
    Option<&'a Creep>)
    ensures
        deref_opt(found) == match closest {
            Some(id) => find_creep(enemies@, id),
            None => None,
        },
{
    get_closest_creep(enemies, closest)
}

/// The creeps with the role `role`, in the order given.
pub fn filter_creeps_by_role<'a>(creeps: &'a Vec<Creep>, role: Role) -> (chosen: Vec<&'a Creep>)
    ensures
        values(chosen@) == creeps@.filter(|c: Creep| Role::of_creep(c) == role),
{
    let mut chosen: Vec<&'a Creep> = Vec::new();
    let mut i: usize = 0;
    proof {
        lemma_filter_start(creeps@, |c: Creep| Role::of_creep(c) == role);
        lemma_values_empty();
    }
    while i < creeps.len()
        invariant
            i <= creeps.len(),
            values(chosen@) == creeps@.take(i as int).filter(|c: Creep| Role::of_creep(c) == role),
        decreases creeps.len() - i,
    {
        proof {
            lemma_filter_step(creeps@, |c: Creep| Role::of_creep(c) == role, i as int);
            lemma_values_push(chosen@, &creeps[i as int]);
        }
        if Role::from(&creeps[i]) == role {
            chosen.push(&creeps[i]);
        }
        i += 1;
    }
    proof {
        lemma_filter_start(creeps@, |c: Creep| Role::of_creep(c) == role);
    }
    chosen
}

/// The orders of an attacker. `other_attackers` are the player's attackers,
/// each with its range to the player's spawn.
pub fn run_attacker(
    creep: &Creep,
    enemy_spawn: &Structure,
    other_attackers: &Vec<Ranged>,
    closest_enemy_to_spawn: Option<u64>,
) -> (orders: Vec<Order>)
    ensures
        orders@ == attacker_orders(
            *creep,
            *enemy_spawn,
            other_attackers@,
            closest_enemy_to_spawn,
        ),
{
    let distances = calculate_distance_from_spawn(other_attackers);
    let mut orders: Vec<Order> = Vec::new();
    if should_creeps_regroup(&distances) {
        match get_index_of_shortest_distance(&distances) {
            Some(shortest_index) => {
                proof {
                    let leader = choose|i: int| first_shortest(ranges(other_attackers@), i);
                    lemma_first_shortest_unique(
                        ranges(other_attackers@),
                        leader,
                        shortest_index as int,
                    );
                }
                orders.push(
                    Order::Always(Intent::MoveTo(Target::Object(other_attackers[shortest_index].id))),
                );
                orders.push(Order::Always(Intent::RangedMassAttack));
            },
            None => {},
        }
    } else {
        match closest_enemy_to_spawn {
            Some(enemy) => {
                orders.push(Order::Always(Intent::RangedAttack(enemy)));
                orders.push(Order::IfNotInRange(Intent::RangedMassAttack));
                orders.push(Order::Always(Intent::MoveTo(Target::Object(enemy))));
            },
            None => {
                orders.push(Order::Always(Intent::MoveTo(Target::Object(enemy_spawn.id))));
                orders.push(Order::Always(Intent::RangedAttack(enemy_spawn.id)));
            },
        }
    }
    orders.push(Order::Always(Intent::Heal(creep.id)));
    assert(orders@ =~= attacker_orders(
        *creep,
        *enemy_spawn,
        other_attackers@,
        closest_enemy_to_spawn,
    ));
    orders
}

/// One tick of the match.
///
/// `my_attackers` are the player's attackers, each with its range to the
/// player's spawn as the host measured it; `closest_enemy_to_spawn` is the
/// enemy that the host found closest by path to that spawn; `nearest[i]`
/// holds what the host found nearest to the `i`-th of `my_creeps`. There is
/// no plan on a tick on which the host shows no spawn of the player's, or
/// none of the enemy's.
pub fn run(
    spawns: &Vec<Structure>,
    my_creeps: &Vec<Creep>,
    my_attackers: &Vec<Ranged>,
    closest_enemy_to_spawn: Option<u64>,
    nearest: &Vec<Nearest>,
) -> (result: Result<Plan, Missing>)
    ensures
        first_owned(spawns@, true) is None ==> result == Err::<Plan, Missing>(Missing::MySpawn),
        first_owned(spawns@, true) is Some && first_owned(spawns@, false) is None ==> result
            == Err::<Plan, Missing>(Missing::EnemySpawn),
        first_owned(spawns@, true) is Some && first_owned(spawns@, false) is Some ==> (result matches Ok(
            plan,
        ) && plan.spawn == CreepTypes::counted(my_creeps@, 1, 100).needed() && plan.creeps.len()
            == my_creeps.len() && forall|k: int|
            0 <= k < my_creeps.len() ==> (#[trigger] plan.creeps[k])@ == creep_orders(
                my_creeps[k],
                first_owned(spawns@, true)->0,
                first_owned(spawns@, false)->0,
                my_attackers@,
                closest_enemy_to_spawn,
                nearest_at(nearest@, k),
            )),
{
    let my_spawn: Structure = match get_spawn(spawns, true) {
        Some(spawn) => spawn,
        None => {
            return Err(Missing::MySpawn);
        },
    };
    let enemy_spawn: Structure = match get_spawn(spawns, false) {
        Some(spawn) => spawn,
        None => {
            return Err(Missing::EnemySpawn);
        },
    };
    let creep_types = init(my_creeps);
    let spawn: Option<Role> = creep_types.needed_role();
    let mut creeps: Vec<Vec<Order>> = Vec::new();
    let mut i: usize = 0;
    while i < my_creeps.len()
        invariant
            i <= my_creeps.len(),
            creeps.len() == i,
            forall|k: int|
                0 <= k < i ==> (#[trigger] creeps[k])@ == creep_orders(
                    my_creeps[k],
                    my_spawn,
                    enemy_spawn,
                    my_attackers@,
                    closest_enemy_to_spawn,
                    nearest_at(nearest@, k),
                ),
        decreases my_creeps.len() - i,
    {
        let found: Nearest = nearest_for(nearest, i);
        let orders: Vec<Order> = match Role::from(&my_creeps[i]) {
            Role::Collector => run_collector(&my_creeps[i], &my_spawn, found),
            Role::Attacker => run_attacker(
                &my_creeps[i],
                &enemy_spawn,
                my_attackers,
                closest_enemy_to_spawn,
            ),
            _ => Vec::new(),
        };
        creeps.push(orders);
        i += 1;
    }
    Ok(Plan { spawn, creeps })
}

} // verus!
