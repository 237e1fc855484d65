//! Capture the flag: one healer guards the flag, everyone else fights
//! according to where the enemy stands, and the towers fire at whoever comes
//! close.

use crate::global::role::Role;
use crate::global::utilities::{find_creep, object_to_creep};
use crate::intent::{Intent, Order, Target};
use crate::seqs::{lemma_filter_start, lemma_filter_step};
use crate::world::{
    lemma_values_empty, lemma_values_push, nearest_at, nearest_for, values, Creep, CreepView, Flag,
    Nearest, Part, Structure,
};
use vstd::prelude::*;

verus! {

/// The towers fire at an enemy no farther than this from the flag.
pub const TOWER_RANGE: u8 = 5;

/// From this tick on the enemy is taken to be sitting at home.
pub const TURTLE_TICK: u32 = 1500;

/// An enemy nearer to the player's flag than this is on the player's side.
pub const OUR_SIDE: u8 = 5;

/// An enemy nearer to the player's flag than this, but not on the player's
/// side, is in the river.
pub const RIVER: u8 = 75;

/// What a creep is good for, going by its body.
#[derive(Clone, Copy, Debug, PartialEq, Eq, Structural)]
pub enum CreepType {
    Fighter,
    Ranger,
    Healer,
}

/// Where the enemy stands.
#[derive(Clone, Copy, Debug, PartialEq, Eq, Structural)]
pub enum EnemyState {
    EnemySide,
    River,
    OurSide,
    MostlyDead,
    Turtling,
}

/// The orders of one tick: `creeps[i]` for the `i`-th of the player's
/// creeps, `towers[i]` for the `i`-th of the player's towers.
pub struct Plan {
    pub creeps: Vec<Vec<Order>>,
    pub towers: Vec<Vec<Order>>,
}

impl EnemyState {
    /// Where the enemy stands: mostly dead with at most one creep left;
    /// else sitting at home from [`TURTLE_TICK`] on; else on the side that
    /// its creep nearest to the player's flag is on.
    pub open spec fn at(enemies: nat, distance_to_our_flag: u8, tick: u32) -> EnemyState {
        if enemies <= 1 {
            EnemyState::MostlyDead
        } else if tick >= TURTLE_TICK {
            EnemyState::Turtling
        } else if distance_to_our_flag < OUR_SIDE {
            EnemyState::OurSide
        } else if distance_to_our_flag < RIVER {
            EnemyState::River
        } else {
            EnemyState::EnemySide
        }
    }

    /// Judges where the enemy stands from how many of its creeps are left,
    /// how far the nearest of them is from the player's flag, and the tick.
    pub fn new(enemies: &Vec<Creep>, distance_to_our_flag: u8, tick: u32) -> (state: EnemyState)
        ensures
            state == EnemyState::at(enemies@.len(), distance_to_our_flag, tick),
    {
        if enemies.len() <= 1 {
            EnemyState::MostlyDead
        } else if tick >= TURTLE_TICK {
            EnemyState::Turtling
        } else if distance_to_our_flag < OUR_SIDE {
            EnemyState::OurSide
        } else if distance_to_our_flag < RIVER {
            EnemyState::River
        } else {
            EnemyState::EnemySide
        }
    }
}

/// The type that a body gives a creep: that of its first part that attacks,
/// shoots or heals. A body without such a part gives none.
pub open spec fn type_of_body(body: Seq<Part>) -> Option<CreepType>
    decreases body.len(),
{
    if body.len() == 0 {
        None
    } else {
        match body[0] {
            Part::Attack => Some(CreepType::Fighter),
            Part::RangedAttack => Some(CreepType::Ranger),
            Part::Heal => Some(CreepType::Healer),
            _ => type_of_body(body.skip(1)),
        }
    }
}

pub open spec fn is_healer_type(creep: Creep) -> bool {
    type_of_body(creep.body@) == Some(CreepType::Healer)
}

/// The role that the `i`-th creep gets on the first tick: the first creep
/// of healer type defends, the other healers heal, everyone else attacks.
pub open spec fn first_role(creeps: Seq<Creep>, i: int) -> Role {
    if is_healer_type(creeps[i]) {
        if exists|j: int| 0 <= j < i && is_healer_type(#[trigger] creeps[j]) {
            Role::Healer
        } else {
            Role::Defender
        }
    } else {
        Role::Attacker
    }
}

/// The defender walks to the flag and heals itself.
pub open spec fn defender_orders(creep: Creep, flag: Flag) -> Seq<Order> {
    seq![
        Order::Always(Intent::MoveTo(Target::Object(flag.id))),
        Order::Always(Intent::Heal(creep.id)),
    ]
}

/// Shoot at, hit and follow one enemy.
pub open spec fn assault(enemy: u64) -> Seq<Order> {
    seq![
        Order::Always(Intent::RangedAttack(enemy)),
        Order::Always(Intent::Attack(enemy)),
        Order::Always(Intent::MoveTo(Target::Object(enemy))),
    ]
}

/// What an attacker or healer does.
///
/// A healer, while anyone is hurt and the host found a hurt creep nearest to
/// it, heals that one: from afar and closing in where it is out of reach.
/// Otherwise the creep collects body parts while the enemy is on its own
/// side (or waits at the flag where none lie around), holds the flag while
/// the enemy is in the river, fights the nearest enemy once the enemy is on
/// the player's side or sitting at home, and hunts down the last enemy, or
/// takes the enemy's flag, once the enemy is mostly dead.
pub open spec fn attacker_orders(
    creep: Creep,
    my_flag: Flag,
    my_creeps: Seq<Creep>,
    enemy_state: EnemyState,
    enemy_creeps: Seq<Creep>,
    enemy_flag: Flag,
    body_parts_present: bool,
    nearest: Nearest,
) -> Seq<Order> {
    if my_creeps.filter(|c: Creep| c.damaged()).len() > 0 && Role::of_creep(creep) == Role::Healer
        && nearest.hurt is Some {
        let hurt = nearest.hurt->0;
        seq![
            Order::Always(Intent::Heal(hurt)),
            Order::IfNotInRange(Intent::RangedHeal(hurt)),
            Order::IfNotInRange(Intent::MoveTo(Target::Object(hurt))),
        ]
    } else {
        match enemy_state {
            EnemyState::EnemySide => if !body_parts_present {
                seq![Order::Always(Intent::MoveTo(Target::Object(my_flag.id)))]
            } else {
                match nearest.body_part {
                    Some(part) => seq![Order::Always(Intent::MoveTo(Target::Object(part)))],
                    None => Seq::empty(),
                }
            },
            EnemyState::River => seq![Order::Always(Intent::MoveTo(Target::Object(my_flag.id)))],
            EnemyState::OurSide | EnemyState::Turtling => match nearest.enemy {
                Some(enemy) => assault(enemy),
                None => Seq::empty(),
            },
            EnemyState::MostlyDead => if enemy_creeps.len() > 0 {
                assault(enemy_creeps[0].id)
            } else {
                seq![Order::Always(Intent::MoveTo(Target::Object(enemy_flag.id)))]
            },
        }
    }
}

/// A tower fires at the enemy nearest to the flag while that one is within
/// [`TOWER_RANGE`] of the flag.
pub open spec fn tower_orders(closest_enemy: u64, enemy_distance: u8) -> Seq<Order> {
    if enemy_distance <= TOWER_RANGE {
        seq![Order::Always(Intent::Attack(closest_enemy))]
    } else {
        Seq::empty()
    }
}

/// What one of the player's creeps does on a tick.
///
/// With no enemy anywhere (`closest_to_flag` is `None`) everyone walks to
/// the enemy's flag. Otherwise the creep acts on its stored role; a creep
/// whose role is none of defender, attacker and healer is left alone.
pub open spec fn creep_orders(
    creep: Creep,
    my_flag: Flag,
    my_creeps: Seq<Creep>,
    enemies: Seq<Creep>,
    enemy_flag: Flag,
    tick: u32,
    closest_to_flag: Option<(u64, u8)>,
    body_parts_present: bool,
    nearest: Nearest,
) -> Seq<Order> {
    match closest_to_flag {
        None => seq![Order::Always(Intent::MoveTo(Target::Object(enemy_flag.id)))],
        Some((_, distance)) => match Role::of_creep(creep) {
            Role::Defender => defender_orders(creep, my_flag),
            Role::Attacker | Role::Healer => attacker_orders(
                creep,
                my_flag,
                my_creeps,
                EnemyState::at(enemies.len(), distance, tick),
                enemies,
                enemy_flag,
                body_parts_present,
                nearest,
            ),
            _ => Seq::empty(),
        },
    }
}

/// What one of the player's towers does on a tick: it fires only if the
/// enemy that the host found nearest to the flag is among `enemies`.
pub open spec fn tower_orders_on_tick(enemies: Seq<Creep>, closest_to_flag: Option<(u64, u8)>) -> Seq<
    Order,
> {
    match closest_to_flag {
        Some((id, distance)) => match find_creep(enemies, id) {
            Some(enemy) => tower_orders(enemy.id, distance),
            None => Seq::empty(),
        },
        None => Seq::empty(),
    }
}

/// Classifies a creep by its body. This never fails: a creep that can
/// neither attack, shoot nor heal has no type.
pub fn determine_creep_type(creep: &Creep) -> (kind: Option<CreepType>)
    ensures
        kind == type_of_body(creep.body@),
{
    let mut i: usize = 0;
    assert(creep.body@.skip(0) == creep.body@);
    while i < creep.body.len()
        invariant
            i <= creep.body.len(),
            type_of_body(creep.body@) == type_of_body(creep.body@.skip(i as int)),
        decreases creep.body.len() - i,
    {
        assert(creep.body@.skip(i as int).skip(1) == creep.body@.skip(i as int + 1));
        match creep.body[i] {
            Part::Attack => {
                return Some(CreepType::Fighter);
            },
            Part::RangedAttack => {
                return Some(CreepType::Ranger);
            },
            Part::Heal => {
                return Some(CreepType::Healer);
            },
            _ => {},
        }
        i += 1;
    }
    None
}

/// Gives every creep its role, as is done on the first tick.
pub fn assign_roles(my_creeps: &mut Vec<Creep>)
    ensures
        final(my_creeps).len() == old(my_creeps).len(),
        forall|k: int|
            0 <= k < old(my_creeps).len() ==> #[trigger] final(my_creeps)[k]@ == (CreepView {
                role: Some(first_role(old(my_creeps)@, k).tag_spec()),
                ..old(my_creeps)[k]@
            }),
        forall|k: int|
            0 <= k < old(my_creeps).len() ==> Role::of_creep(#[trigger] final(my_creeps)[k])
                == first_role(old(my_creeps)@, k),
{
    let mut assigned_defender: bool = false;
    let mut i: usize = 0;
    while i < my_creeps.len()
        invariant
            i <= my_creeps.len(),
            my_creeps.len() == old(my_creeps).len(),
            assigned_defender == (exists|j: int|
                0 <= j < i && is_healer_type(#[trigger] old(my_creeps)[j])),
            forall|k: int|
                0 <= k < i ==> #[trigger] my_creeps[k]@ == (CreepView {
                    role: Some(first_role(old(my_creeps)@, k).tag_spec()),
                    ..old(my_creeps)[k]@
                }),
            forall|k: int|
                0 <= k < i ==> Role::of_creep(#[trigger] my_creeps[k]) == first_role(
                    old(my_creeps)@,
                    k,
                ),
            forall|k: int| i <= k < my_creeps.len() ==> my_creeps[k] == old(my_creeps)[k],
        decreases my_creeps.len() - i,
    {
        let role: Role = match determine_creep_type(&my_creeps[i]) {
            Some(CreepType::Healer) => {
                if !assigned_defender {
                    Role::Defender
                } else {
                    Role::Healer
                }
            },
            _ => Role::Attacker,
        };
        assert(role == first_role(old(my_creeps)@, i as int));
        if role == Role::Defender {
            assigned_defender = true;
        }
        assert(is_healer_type(old(my_creeps)[i as int]) ==> assigned_defender);
        role.attach_to_creep(&mut my_creeps[i]);
        i += 1;
    }
}

/// The orders of the defender.
pub fn run_defender(creep: &Creep, flag: &Flag) -> (orders: Vec<Order>)
    ensures
        orders@ == defender_orders(*creep, *flag),
{
    vec![
        Order::Always(Intent::MoveTo(Target::Object(flag.id))),
        Order::Always(Intent::Heal(creep.id)),
    ]
}

fn assault_orders(enemy: u64) -> (orders: Vec<Order>)
    ensures
        orders@ == assault(enemy),
{
    vec![
        Order::Always(Intent::RangedAttack(enemy)),
        Order::Always(Intent::Attack(enemy)),
        Order::Always(Intent::MoveTo(Target::Object(enemy))),
    ]
}

/// The orders of an attacker or a healer.
pub fn run_attacker(
    creep: &Creep,
    my_flag: &Flag,
    my_creeps: &Vec<Creep>,
    enemy_state: EnemyState,
    enemy_creeps: &Vec<Creep>,
    enemy_flag: &Flag,
    body_parts_present: bool,
    nearest: Nearest,
) -> (orders: Vec<Order>)
    ensures
        orders@ == attacker_orders(
            *creep,
            *my_flag,
            my_creeps@,
            enemy_state,
            enemy_creeps@,
            *enemy_flag,
            body_parts_present,
            nearest,
        ),
{
    let hurt_creeps = get_hurt_creeps(my_creeps);
    assert(values(hurt_creeps@).len() == hurt_creeps@.len());
    if hurt_creeps.len() > 0 && Role::from(creep) == Role::Healer {
        if let Some(hurt) = nearest.hurt {
            return vec![
                Order::Always(Intent::Heal(hurt)),
                Order::IfNotInRange(Intent::RangedHeal(hurt)),
                Order::IfNotInRange(Intent::MoveTo(Target::Object(hurt))),
            ];
        }
    }
    match enemy_state {
        EnemyState::EnemySide => {
            if !body_parts_present {
                vec![Order::Always(Intent::MoveTo(Target::Object(my_flag.id)))]
            } else {
                match nearest.body_part {
                    Some(part) => vec![Order::Always(Intent::MoveTo(Target::Object(part)))],
                    None => Vec::new(),
                }
            }
        },
        EnemyState::River => vec![Order::Always(Intent::MoveTo(Target::Object(my_flag.id)))],
        EnemyState::OurSide | EnemyState::Turtling => match nearest.enemy {
            Some(enemy) => assault_orders(enemy),
            None => Vec::new(),
        },
        EnemyState::MostlyDead => {
            if enemy_creeps.len() > 0 {
                assault_orders(enemy_creeps[0].id)
            } else {
                vec![Order::Always(Intent::MoveTo(Target::Object(enemy_flag.id)))]
            }
        },
    }
}

/// The first flag of the list that belongs to the side `my`.
pub open spec fn first_flag(flags: Seq<Flag>, my: bool) -> Option<Flag>
    decreases flags.len(),
{
    if flags.len() == 0 {
        None
    } else if flags[0].owned_by(my) {
        Some(flags[0])
    } else {
        first_flag(flags.skip(1), my)
    }
}

/// The first flag of the side `my`, if the host shows one this tick. A flag
/// of which the host does not say whose it is counts as not mine.
pub fn get_flag(flags: &Vec<Flag>, my: bool) -> (flag: Option<Flag>)
    ensures
        flag == first_flag(flags@, my),
{
    let mut i: usize = 0;
    assert(flags@.skip(0) == flags@);
    while i < flags.len()
        invariant
            i <= flags.len(),
            first_flag(flags@, my) == first_flag(flags@.skip(i as int), my),
        decreases flags.len() - i,
    {
        assert(flags@.skip(i as int).skip(1) == flags@.skip(i as int + 1));
        let owned: bool = match flags[i].my {
            Some(mine) => mine,
            None => false,
        };
        if owned == my {
            return Some(flags[i]);
        }
        i += 1;
    }
    None
}

/// The towers of the side `my`, in the host's order.
pub fn get_towers(towers: &Vec<Structure>, my: bool) -> (side: Vec<Structure>)
    ensures
        side@ == towers@.filter(|t: Structure| t.owned_by(my)),
{
    let mut side: Vec<Structure> = Vec::new();
    let mut i: usize = 0;
    proof {
        lemma_filter_start(towers@, |t: Structure| t.owned_by(my));
    }
    while i < towers.len()
        invariant
            i <= towers.len(),
            side@ == towers@.take(i as int).filter(|t: Structure| t.owned_by(my)),
        decreases towers.len() - i,
    {
        proof {
            lemma_filter_step(towers@, |t: Structure| t.owned_by(my), i as int);
        }
        let owned: bool = match towers[i].my {
            Some(mine) => mine,
            None => false,
        };
        if owned == my {
            side.push(towers[i]);
        }
        i += 1;
    }
    proof {
        lemma_filter_start(towers@, |t: Structure| t.owned_by(my));
    }
    side
}

/// The orders of the towers, one list for each tower.
pub fn run_towers(towers: &Vec<Structure>, closest_enemy: &Creep, enemy_distance: u8) -> (orders:
    Vec<Vec<Order>>)
    ensures
        orders.len() == towers.len(),
        forall|k: int|
            0 <= k < towers.len() ==> (#[trigger] orders[k])@ == tower_orders(
                closest_enemy.id,
                enemy_distance,
            ),
{
    let mut orders: Vec<Vec<Order>> = Vec::new();
    let mut i: usize = 0;
    while i < towers.len()
        invariant
            i <= towers.len(),
            orders.len() == i,
            forall|k: int|
                0 <= k < i ==> (#[trigger] orders[k])@ == tower_orders(
                    closest_enemy.id,
                    enemy_distance,
                ),
        decreases towers.len() - i,
    {
        if enemy_distance <= TOWER_RANGE {
            orders.push(vec![Order::Always(Intent::Attack(closest_enemy.id))]);
        } else {
            orders.push(Vec::new());
        }
        i += 1;
    }
    orders
}

/// The creeps that have lost hit points, in the order given.
pub fn get_hurt_creeps<'a>(creeps: &'a Vec<Creep>) -> (hurt: Vec<&'a Creep>)
    ensures
        values(hurt@) == creeps@.filter(|c: Creep| c.damaged()),
{
    let mut hurt: Vec<&'a Creep> = Vec::new();
    let mut i: usize = 0;
    proof {
        lemma_filter_start(creeps@, |c: Creep| c.damaged());
        lemma_values_empty();
    }
    while i < creeps.len()
        invariant
            i <= creeps.len(),
            values(hurt@) == creeps@.take(i as int).filter(|c: Creep| c.damaged()),
        decreases creeps.len() - i,
    {
        proof {
            lemma_filter_step(creeps@, |c: Creep| c.damaged(), i as int);
            lemma_values_push(hurt@, &creeps[i as int]);
        }
        if creeps[i].hits_max > creeps[i].hits {
            hurt.push(&creeps[i]);
        }
        i += 1;
    }
    proof {
        lemma_filter_start(creeps@, |c: Creep| c.damaged());
    }
    hurt
}

/// One tick of the match.
///
/// On the first tick every creep is given its role first. `closest_to_flag`
/// is the enemy that the host found closest to the player's flag, with its
/// range to the flag; `nearest[i]` holds what the host found nearest to the
/// `i`-th creep; `body_parts_present` says whether any body part lies on the
/// ground.
pub fn run(
    tick: u32,
    my_creeps: &mut Vec<Creep>,
    my_flag: &Flag,
    enemies: &Vec<Creep>,
    my_towers: &Vec<Structure>,
    enemy_flag: &Flag,
    closest_to_flag: Option<(u64, u8)>,
    body_parts_present: bool,
    nearest: &Vec<Nearest>,
) -> (plan: Plan)
    ensures
        final(my_creeps).len() == old(my_creeps).len(),
        tick != 1 ==> *final(my_creeps) == *old(my_creeps),
        tick == 1 ==> forall|k: int|
            0 <= k < old(my_creeps).len() ==> #[trigger] final(my_creeps)[k]@ == (CreepView {
                role: Some(first_role(old(my_creeps)@, k).tag_spec()),
                ..old(my_creeps)[k]@
            }),
        plan.creeps.len() == old(my_creeps).len(),
        forall|k: int|
            0 <= k < old(my_creeps).len() ==> (#[trigger] plan.creeps[k])@ == creep_orders(
                final(my_creeps)[k],
                *my_flag,
                final(my_creeps)@,
                enemies@,
                *enemy_flag,
                tick,
                closest_to_flag,
                body_parts_present,
                nearest_at(nearest@, k),
            ),
        plan.towers.len() == my_towers.len(),
        forall|k: int|
            0 <= k < my_towers.len() ==> (#[trigger] plan.towers[k])@ == tower_orders_on_tick(
                enemies@,
                closest_to_flag,
            ),
{
    if tick == 1 {
        assign_roles(my_creeps);
    }
    let mut creeps: Vec<Vec<Order>> = Vec::new();
    let mut i: usize = 0;
    while i < my_creeps.len()
        invariant
            i <= my_creeps.len(),
            creeps.len() == i,
            forall|k: int|
                0 <= k < i ==> (#[trigger] creeps[k])@ == creep_orders(
                    my_creeps[k],
                    *my_flag,
                    my_creeps@,
                    enemies@,
                    *enemy_flag,
                    tick,
                    closest_to_flag,
                    body_parts_present,
                    nearest_at(nearest@, k),
                ),
        decreases my_creeps.len() - i,
    {
        let found: Nearest = nearest_for(nearest, i);
        let orders: Vec<Order> = match closest_to_flag {
            None => vec![Order::Always(Intent::MoveTo(Target::Object(enemy_flag.id)))],
            Some((_, distance)) => {
                let enemy_state = EnemyState::new(enemies, distance, tick);
                match Role::from(&my_creeps[i]) {
                    Role::Defender => run_defender(&my_creeps[i], my_flag),
                    Role::Attacker | Role::Healer => run_attacker(
                        &my_creeps[i],
                        my_flag,
                        my_creeps,
                        enemy_state,
                        enemies,
                        enemy_flag,
                        body_parts_present,
                        found,
                    ),
                    _ => Vec::new(),
                }
            },
        };
        creeps.push(orders);
        i += 1;
    }
    let towers: Vec<Vec<Order>> = match closest_to_flag {
        Some((id, distance)) => match object_to_creep(enemies, id) {
            Some(enemy) => run_towers(my_towers, enemy, distance),
            None => idle(my_towers.len()),
        },
        None => idle(my_towers.len()),
    };
    Plan { creeps, towers }
}

/// `n` empty lists of orders.
pub fn idle(n: usize) -> (orders: Vec<Vec<Order>>)
    ensures
        orders.len() == n,
        forall|k: int| 0 <= k < n ==> (#[trigger] orders[k])@ == Seq::<Order>::empty(),
{
    let mut orders: Vec<Vec<Order>> = Vec::new();
    let mut i: usize = 0;
    while i < n
        invariant
            i <= n,
            orders.len() == i,
            forall|k: int| 0 <= k < i ==> (#[trigger] orders[k])@ == Seq::<Order>::empty(),
        decreases n - i,
    {
        orders.push(Vec::new());
        i += 1;
    }
    orders
}

} // verus!
