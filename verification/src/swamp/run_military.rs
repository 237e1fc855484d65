//! A military creep: it retreats to mend itself, sticks to the target it was
//! given while that one lives, and goes for the enemy's spawn once no enemy
//! is left.

use crate::global::utilities::{deref_opt, find_creep, object_to_creep};
use crate::intent::{Intent, Order, Target};
use crate::world::{Creep, CreepView, Nearest, Structure};
use vstd::prelude::*;

verus! {

/// Why a military creep could not be told what to do.
#[derive(Clone, Copy, Debug, PartialEq, Eq, Structural)]
pub enum MilitaryError {
    /// The creep has no target, and the host found no enemy to give it.
    NoTarget,
}

/// The target that a creep goes by: the one kept on it, else the enemy that
/// the host found nearest to it.
pub open spec fn target_of(creep: Creep, nearest: Nearest) -> Option<u64> {
    match creep.target_id {
        Some(target) => Some(target),
        None => nearest.enemy,
    }
}

/// Walk to an object and shoot at it.
pub open spec fn advance_on(object: u64) -> Seq<Order> {
    seq![
        Order::Always(Intent::MoveTo(Target::Object(object))),
        Order::Always(Intent::RangedAttack(object)),
    ]
}

/// Whether the creep is whole, has enemies before it, and goes by a target
/// that is not among them.
pub open spec fn target_is_gone(creep: Creep, enemies: Seq<Creep>, nearest: Nearest) -> bool {
    &&& !creep.damaged()
    &&& enemies.len() > 0
    &&& target_of(creep, nearest) matches Some(target)
    &&& find_creep(enemies, target) is None
}

/// What a military creep does.
///
/// A damaged one heals itself and walks home. With no enemy left it
/// advances on the enemy's spawn. Otherwise it advances on its target if
/// that one is among the enemies, and does nothing on this tick if it is
/// not. Without any target there is an error.
pub open spec fn military_orders(
    creep: Creep,
    enemies: Seq<Creep>,
    enemy_spawn: Structure,
    my_spawn: Structure,
    nearest: Nearest,
) -> Result<Seq<Order>, MilitaryError> {
    if creep.damaged() {
        Ok(
            seq![
                Order::Always(Intent::Heal(creep.id)),
                Order::Always(Intent::MoveTo(Target::Object(my_spawn.id))),
            ],
        )
    } else if enemies.len() == 0 {
        Ok(advance_on(enemy_spawn.id))
    } else {
        match target_of(creep, nearest) {
            None => Err(MilitaryError::NoTarget),
            Some(target) => match find_creep(enemies, target) {
                Some(enemy) => Ok(advance_on(enemy.id)),
                None => Ok(Seq::empty()),
            },
        }
    }
}

/// The view of an optional list of orders.
pub open spec fn orders_view(result: Result<Vec<Order>, MilitaryError>) -> Result<
    Seq<Order>,
    MilitaryError,
> {
    match result {
        Ok(orders) => Ok(orders@),
        Err(e) => Err(e),
    }
}

/// The orders of a military creep. A target that is no longer among the
/// enemies is taken off the creep; nothing else about the creep changes.
pub fn run_military(
    creep: &mut Creep,
    enemies: &Vec<Creep>,
    enemy_spawn: &Structure,
    my_spawn: &Structure,
    nearest: Nearest,
) -> (result: Result<Vec<Order>, MilitaryError>)
    ensures
        orders_view(result) == military_orders(
            *old(creep),
            enemies@,
            *enemy_spawn,
            *my_spawn,
            nearest,
        ),
        target_is_gone(*old(creep), enemies@, nearest) ==> final(creep)@ == (CreepView {
            target_id: None,
            ..old(creep)@
        }),
        !target_is_gone(*old(creep), enemies@, nearest) ==> *final(creep) == *old(creep),
{
    if creep.hits < creep.hits_max {
        return Ok(
            vec![
                Order::Always(Intent::Heal(creep.id)),
                Order::Always(Intent::MoveTo(Target::Object(my_spawn.id))),
            ],
        );
    }
    if enemies.len() == 0 {
        return Ok(
            vec![
                Order::Always(Intent::MoveTo(Target::Object(enemy_spawn.id))),
                Order::Always(Intent::RangedAttack(enemy_spawn.id)),
            ],
        );
    }
    let target_id: u64 = match get_assigned_target(creep) {
        Some(target_id) => target_id,
        None => match nearest.enemy {
            Some(target_id) => target_id,
            None => {
                return Err(MilitaryError::NoTarget);
            },
        },
    };
    match get_enemy_by_id(target_id, enemies) {
        Some(enemy) => Ok(
            vec![
                Order::Always(Intent::MoveTo(Target::Object(enemy.id))),
                Order::Always(Intent::RangedAttack(enemy.id)),
            ],
        ),
        None => {
            unassign_target(creep);
            Ok(Vec::new())
        },
    }
}

/// The target kept on the creep, if any.
pub fn get_assigned_target(creep: &Creep) -> (target: Option<u64>)
    ensures
        target == creep.target_id,
{
    creep.target_id
}

/// Keeps a target on the creep.
pub fn assign_target(creep: &mut Creep, target_id: u64)
    ensures
        final(creep)@ == (CreepView { target_id: Some(target_id), ..old(creep)@ }),
{
    creep.target_id = Some(target_id);
}

/// The first of the enemies with the given id, if there is one.
pub fn get_enemy_by_id<'a>(target_id: u64, enemies: &'a Vec<Creep>) -> (enemy: Option<&'a Creep>)
    ensures
        deref_opt(enemy) == find_creep(enemies@, target_id),
{
    object_to_creep(enemies, target_id)
}

/// Takes the target off the creep.
pub fn unassign_target(creep: &mut Creep)
    ensures
        final(creep)@ == (CreepView { target_id: None, ..old(creep)@ }),
{
    creep.target_id = None;
}

} // verus!
