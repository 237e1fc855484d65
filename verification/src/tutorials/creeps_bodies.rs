//! A fighter, a ranger and a healer against one enemy: each does what its
//! body is made for.

use crate::ctf::{determine_creep_type, type_of_body, CreepType};
use crate::global::utilities::{deref_opt, find_last, last_of_side};
use crate::intent::{act_or_approach, try_or_approach, Intent, Order, Target};
use crate::world::Creep;
use vstd::prelude::*;

verus! {

/// Whether a creep is the player's and of the given type.
pub open spec fn is_mine_of(creep: Creep, kind: CreepType) -> bool {
    creep.my && type_of_body(creep.body@) == Some(kind)
}

/// The place in the list of the last of the player's creeps of the given
/// type, if there is one.
pub open spec fn last_of_type(creeps: Seq<Creep>, kind: CreepType) -> Option<int>
    decreases creeps.len(),
{
    if creeps.len() == 0 {
        None
    } else if is_mine_of(creeps.last(), kind) {
        Some(creeps.len() - 1)
    } else {
        last_of_type(creeps.drop_last(), kind)
    }
}

/// Heal a creep that has lost hit points, walking up to it where it is out
/// of range; leave a whole one alone.
pub open spec fn mend(creeps: Seq<Creep>, patient: Option<int>) -> Seq<Order> {
    match patient {
        Some(i) => if creeps[i].damaged() {
            act_or_approach(Intent::Heal(creeps[i].id), creeps[i].id)
        } else {
            Seq::empty()
        },
        None => Seq::empty(),
    }
}

/// What the `i`-th creep does on a tick.
///
/// Without an enemy nobody does anything. With one, the last of the
/// player's fighters attacks it and the last of the rangers shoots at it,
/// each walking up where it is out of range. The last of the healers mends
/// that fighter, then that ranger, then itself. Every other creep rests.
pub open spec fn orders_at(creeps: Seq<Creep>, i: int) -> Seq<Order> {
    match last_of_side(creeps, false) {
        None => Seq::empty(),
        Some(enemy) => if last_of_type(creeps, CreepType::Fighter) == Some(i) {
            act_or_approach(Intent::Attack(enemy.id), enemy.id)
        } else if last_of_type(creeps, CreepType::Ranger) == Some(i) {
            act_or_approach(Intent::RangedAttack(enemy.id), enemy.id)
        } else if last_of_type(creeps, CreepType::Healer) == Some(i) {
            mend(creeps, last_of_type(creeps, CreepType::Fighter)) + mend(
                creeps,
                last_of_type(creeps, CreepType::Ranger),
            ) + if creeps[i].damaged() {
                seq![Order::Always(Intent::Heal(creeps[i].id))]
            } else {
                Seq::empty()
            }
        } else {
            Seq::empty()
        },
    }
}

/// Where the last creep of a type stands in any list, it is one of the
/// list, the player's, and of that type.
pub proof fn lemma_last_of_type(creeps: Seq<Creep>, kind: CreepType)
    ensures
        last_of_type(creeps, kind) matches Some(i) ==> 0 <= i < creeps.len() && is_mine_of(
            creeps[i],
            kind,
        ),
    decreases creeps.len(),
{
    if creeps.len() > 0 && !is_mine_of(creeps.last(), kind) {
        lemma_last_of_type(creeps.drop_last(), kind);
    }
}

/// The orders of one tick, `orders[i]` for the `i`-th creep of the list.
pub fn run(creeps: &Vec<Creep>) -> (orders: Vec<Vec<Order>>)
    ensures
        orders.len() == creeps.len(),
        forall|k: int| 0 <= k < creeps.len() ==> (#[trigger] orders[k])@ == orders_at(creeps@, k),
{
    let mut fighter: Option<usize> = None;
    let mut ranger: Option<usize> = None;
    let mut healer: Option<usize> = None;
    let mut i: usize = 0;
    assert(creeps@.take(0) =~= Seq::<Creep>::empty());
    while i < creeps.len()
        invariant
            i <= creeps.len(),
            as_place(fighter) == last_of_type(creeps@.take(i as int), CreepType::Fighter),
            as_place(ranger) == last_of_type(creeps@.take(i as int), CreepType::Ranger),
            as_place(healer) == last_of_type(creeps@.take(i as int), CreepType::Healer),
        decreases creeps.len() - i,
    {
        assert(creeps@.take(i as int + 1).drop_last() =~= creeps@.take(i as int));
        if creeps[i].my {
            match get_creep_type(&creeps[i]) {
                Some(CreepType::Fighter) => {
                    fighter = Some(i);
                },
                Some(CreepType::Ranger) => {
                    ranger = Some(i);
                },
                Some(CreepType::Healer) => {
                    healer = Some(i);
                },
                None => {},
            }
        }
        i += 1;
    }
    assert(creeps@.take(creeps.len() as int) =~= creeps@);
    proof {
        lemma_last_of_type(creeps@, CreepType::Fighter);
        lemma_last_of_type(creeps@, CreepType::Ranger);
        lemma_last_of_type(creeps@, CreepType::Healer);
    }
    let enemy: Option<&Creep> = find_last(creeps, false);
    let mut orders: Vec<Vec<Order>> = Vec::new();
    let mut k: usize = 0;
    while k < creeps.len()
        invariant
            k <= creeps.len(),
            orders.len() == k,
            deref_opt(enemy) == last_of_side(creeps@, false),
            as_place(fighter) == last_of_type(creeps@, CreepType::Fighter),
            as_place(ranger) == last_of_type(creeps@, CreepType::Ranger),
            as_place(healer) == last_of_type(creeps@, CreepType::Healer),
            fighter matches Some(f) ==> f < creeps.len(),
            ranger matches Some(r) ==> r < creeps.len(),
            forall|j: int| 0 <= j < k ==> (#[trigger] orders[j])@ == orders_at(creeps@, j),
        decreases creeps.len() - k,
    {
        let mut mine: Vec<Order> = Vec::new();
        if let Some(enemy) = enemy {
            if is_at(fighter, k) {
                mine = try_or_approach(Intent::Attack(enemy.id), enemy.id);
            } else if is_at(ranger, k) {
                mine = try_or_approach(Intent::RangedAttack(enemy.id), enemy.id);
            } else if is_at(healer, k) {
                if let Some(f) = fighter {
                    if has_been_hurt(&creeps[f]) {
                        heal_or_move(&mut mine, &creeps[f]);
                    }
                }
                assert(mine@ =~= mend(creeps@, as_place(fighter)));
                if let Some(r) = ranger {
                    if has_been_hurt(&creeps[r]) {
                        heal_or_move(&mut mine, &creeps[r]);
                    }
                }
                assert(mine@ =~= mend(creeps@, as_place(fighter)) + mend(
                    creeps@,
                    as_place(ranger),
                ));
                if has_been_hurt(&creeps[k]) {
                    mine.push(Order::Always(Intent::Heal(creeps[k].id)));
                }
                assert(mine@ =~= orders_at(creeps@, k as int));
            }
        }
        orders.push(mine);
        k += 1;
    }
    orders
}

/// A place in a list as a mathematical integer.
pub open spec fn as_place(place: Option<usize>) -> Option<int> {
    match place {
        Some(i) => Some(i as int),
        None => None,
    }
}

fn is_at(place: Option<usize>, k: usize) -> (at: bool)
    ensures
        at == (as_place(place) == Some(k as int)),
{
    match place {
        Some(i) => i == k,
        None => false,
    }
}

/// Classifies a creep by its body. This never fails: a creep that can
/// neither attack, shoot nor heal has no type.
pub fn get_creep_type(creep: &Creep) -> (kind: Option<CreepType>)
    ensures
        kind == type_of_body(creep.body@),
{
    determine_creep_type(creep)
}

/// Whether the creep has lost hit points.
pub fn has_been_hurt(creep: &Creep) -> (hurt: bool)
    ensures
        hurt == creep.damaged(),
{
    creep.hits < creep.hits_max
}

/// Adds the orders to heal `target`, walking up to it where it is out of
/// range.
pub fn heal_or_move(orders: &mut Vec<Order>, target: &Creep)
    ensures
        final(orders)@ == old(orders)@ + act_or_approach(Intent::Heal(target.id), target.id),
{
    orders.push(Order::Always(Intent::Heal(target.id)));
    orders.push(Order::IfNotInRange(Intent::MoveTo(Target::Object(target.id))));
    assert(orders@ =~= old(orders)@ + act_or_approach(Intent::Heal(target.id), target.id));
}

} // verus!
