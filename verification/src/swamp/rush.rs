//! The plain strategy for the swamp arena: keep five collectors feeding the
//! spawn, then turn out attackers that each go for the enemy nearest to
//! them, and for the enemy's spawn once no enemy is left.

use crate::global::role::Role;
use crate::global::utilities::{first_owned, get_spawn};
use crate::intent::{act_or_approach, try_or_approach, Intent, Order, Target};
use crate::seqs::{count, lemma_count_step, lemma_filter_start};
use crate::world::{nearest_at, nearest_for, Creep, CreepView, Nearest, Structure};
use vstd::prelude::*;

verus! {

/// How many creeps of each role there are, and how many are wanted.
#[derive(Clone, Copy, Debug, PartialEq, Eq, Structural)]
pub struct CreepTypes {
    pub have_collectors: usize,
    pub want_collectors: usize,
    pub have_attackers: usize,
    pub want_attackers: usize,
}

/// What `run` cannot do without and did not find this tick.
#[derive(Clone, Copy, Debug, PartialEq, Eq, Structural)]
pub enum Missing {
    MySpawn,
    EnemySpawn,
}

/// The decisions of one tick: the role to ask the spawn for, if any, and
/// `creeps[i]` for the `i`-th of the player's creeps.
pub struct Plan {
    pub spawn: Option<Role>,
    pub creeps: Vec<Vec<Order>>,
}

/// How many of `creeps` have the role `role`.
pub open spec fn count_role(creeps: Seq<Creep>, role: Role) -> nat {
    count(creeps, |c: Creep| Role::of_creep(c) == role)
}

impl CreepTypes {
    /// The role to spawn next: the first role of the table, collectors
    /// before attackers, of which there are fewer than wanted.
    pub open spec fn needed(&self) -> Option<Role> {
        if self.have_collectors < self.want_collectors {
            Some(Role::Collector)
        } else if self.have_attackers < self.want_attackers {
            Some(Role::Attacker)
        } else {
            None
        }
    }

    pub open spec fn counted(creeps: Seq<Creep>, want_collectors: usize, want_attackers: usize)
        -> CreepTypes {
        CreepTypes {
            have_collectors: count_role(creeps, Role::Collector) as usize,
            want_collectors,
            have_attackers: count_role(creeps, Role::Attacker) as usize,
            want_attackers,
        }
    }

    /// Counts the collectors and attackers among `creeps` against the given
    /// minimums.
    pub fn with_targets(creeps: &Vec<Creep>, want_collectors: usize, want_attackers: usize) -> (types:
        CreepTypes)
        ensures
            types == CreepTypes::counted(creeps@, want_collectors, want_attackers),
            types.have_collectors == count_role(creeps@, Role::Collector),
            types.have_attackers == count_role(creeps@, Role::Attacker),
    {
        let mut have_collectors: usize = 0;
        let mut have_attackers: usize = 0;
        let mut i: usize = 0;
        proof {
            lemma_filter_start(creeps@, |c: Creep| Role::of_creep(c) == Role::Collector);
            lemma_filter_start(creeps@, |c: Creep| Role::of_creep(c) == Role::Attacker);
        }
        while i < creeps.len()
            invariant
                i <= creeps.len(),
                have_collectors == count_role(creeps@.take(i as int), Role::Collector),
                have_attackers == count_role(creeps@.take(i as int), Role::Attacker),
                have_collectors <= i,
                have_attackers <= i,
            decreases creeps.len() - i,
        {
            proof {
                lemma_count_step(creeps@, |c: Creep| Role::of_creep(c) == Role::Collector, i as int);
                lemma_count_step(creeps@, |c: Creep| Role::of_creep(c) == Role::Attacker, i as int);
            }
            match Role::from(&creeps[i]) {
                Role::Collector => {
                    have_collectors += 1;
                },
                Role::Attacker => {
                    have_attackers += 1;
                },
                _ => {},
            }
            i += 1;
        }
        proof {
            lemma_filter_start(creeps@, |c: Creep| Role::of_creep(c) == Role::Collector);
        }
        CreepTypes { have_collectors, want_collectors, have_attackers, want_attackers }
    }

    /// Counts `creeps` against the usual minimums: five collectors, a
    /// hundred attackers.
    pub fn init(creeps: &Vec<Creep>) -> (types: CreepTypes)
        ensures
            types == CreepTypes::counted(creeps@, 5, 100),
    {
        CreepTypes::with_targets(creeps, 5, 100)
    }

    /// The role to spawn next, if any is under its minimum.
    pub fn needed_role(&self) -> (role: Option<Role>)
        ensures
            role == self.needed(),
    {
        if self.have_collectors < self.want_collectors {
            Some(Role::Collector)
        } else if self.have_attackers < self.want_attackers {
            Some(Role::Attacker)
        } else {
            None
        }
    }
}

impl Default for CreepTypes {
    fn default() -> (types: CreepTypes)
        ensures
            types == (CreepTypes {
                have_collectors: 0,
                want_collectors: 5,
                have_attackers: 0,
                want_attackers: 100,
            }),
    {
        CreepTypes { have_collectors: 0, want_collectors: 5, have_attackers: 0, want_attackers: 100 }
    }
}

/// A collector with an empty store draws from the container that the host
/// found nearest, and does nothing where it found none; one that carries
/// anything brings it to the spawn.
pub open spec fn collector_orders(creep: Creep, spawn: Structure, nearest: Nearest) -> Seq<Order> {
    if creep.used_capacity == 0 {
        match nearest.container {
            Some(container) => act_or_approach(Intent::Withdraw(container), container),
            None => Seq::empty(),
        }
    } else {
        act_or_approach(Intent::Transfer(spawn.id), spawn.id)
    }
}

/// An attacker heals itself and shoots at the enemy that the host found
/// nearest, or at the enemy's spawn where no enemy is left.
pub open spec fn attacker_orders(creep: Creep, enemy_spawn: Structure, nearest: Nearest) -> Seq<
    Order,
> {
    let target = match nearest.enemy {
        Some(enemy) => enemy,
        None => enemy_spawn.id,
    };
    seq![Order::Always(Intent::Heal(creep.id))] + act_or_approach(
        Intent::RangedAttack(target),
        target,
    )
}

/// What one of the player's creeps does on a tick. A creep that is neither
/// collector nor attacker is left alone.
pub open spec fn creep_orders(
    creep: Creep,
    my_spawn: Structure,
    enemy_spawn: Structure,
    nearest: Nearest,
) -> Seq<Order> {
    match Role::of_creep(creep) {
        Role::Collector => collector_orders(creep, my_spawn, nearest),
        Role::Attacker => attacker_orders(creep, enemy_spawn, nearest),
        _ => Seq::empty(),
    }
}

/// Marks a creep that the spawn has just begun to make with the role it was
/// asked for.
pub fn spawn_creep(new_creep: &mut Creep, role: Role)
    ensures
        final(new_creep)@ == (CreepView { role: Some(role.tag_spec()), ..old(new_creep)@ }),
        Role::of_creep(*final(new_creep)) == role,
{
    role.attach_to_creep(new_creep);
}

/// The orders of a collector.
pub fn run_collector(creep: &Creep, spawn: &Structure, nearest: Nearest) -> (orders: Vec<Order>)
    ensures
        orders@ == collector_orders(*creep, *spawn, nearest),
{
    if creep.used_capacity == 0 {
        match nearest.container {
            Some(container) => try_or_approach(Intent::Withdraw(container), container),
            None => Vec::new(),
        }
    } else {
        try_or_approach(Intent::Transfer(spawn.id), spawn.id)
    }
}

/// The orders of an attacker.
pub fn run_attacker(creep: &Creep, enemy_spawn: &Structure, nearest: Nearest) -> (orders: Vec<
    Order,
>)
    ensures
        orders@ == attacker_orders(*creep, *enemy_spawn, nearest),
{
    let target: u64 = match nearest.enemy {
        Some(enemy) => enemy,
        None => enemy_spawn.id,
    };
    let orders: Vec<Order> = vec![
        Order::Always(Intent::Heal(creep.id)),
        Order::Always(Intent::RangedAttack(target)),
        Order::IfNotInRange(Intent::MoveTo(Target::Object(target))),
    ];
    assert(orders@ =~= attacker_orders(*creep, *enemy_spawn, nearest));
    orders
}

/// One tick of the match.
///
/// `nearest[i]` holds what the host found nearest to the `i`-th of
/// `my_creeps`. There is no plan on a tick on which the host shows no spawn
/// of the player's, or none of the enemy's.
pub fn run(spawns: &Vec<Structure>, my_creeps: &Vec<Creep>, nearest: &Vec<Nearest>) -> (result: Result<
    Plan,
    Missing,
>)
    ensures
        first_owned(spawns@, true) is None ==> result == Err::<Plan, Missing>(Missing::MySpawn),
        first_owned(spawns@, true) is Some && first_owned(spawns@, false) is None ==> result
            == Err::<Plan, Missing>(Missing::EnemySpawn),
        first_owned(spawns@, true) is Some && first_owned(spawns@, false) is Some ==> (result matches Ok(
            plan,
        ) && plan.spawn == CreepTypes::counted(my_creeps@, 5, 100).needed() && plan.creeps.len()
            == my_creeps.len() && forall|k: int|
            0 <= k < my_creeps.len() ==> (#[trigger] plan.creeps[k])@ == creep_orders(
                my_creeps[k],
                first_owned(spawns@, true)->0,
                first_owned(spawns@, false)->0,
                nearest_at(nearest@, k),
            )),
{
    let my_spawn: Structure = match get_spawn(spawns, true) {
        Some(spawn) => spawn,
        None => {
            return Err(Missing::MySpawn);
        },
    };
    let enemy_spawn: Structure = match get_spawn(spawns, false) {
        Some(spawn) => spawn,
        None => {
            return Err(Missing::EnemySpawn);
        },
    };
    let creep_types = CreepTypes::init(my_creeps);
    let spawn: Option<Role> = creep_types.needed_role();
    let mut creeps: Vec<Vec<Order>> = Vec::new();
    let mut i: usize = 0;
    while i < my_creeps.len()
        invariant
            i <= my_creeps.len(),
            creeps.len() == i,
            forall|k: int|
                0 <= k < i ==> (#[trigger] creeps[k])@ == creep_orders(
                    my_creeps[k],
                    my_spawn,
                    enemy_spawn,
                    nearest_at(nearest@, k),
                ),
        decreases my_creeps.len() - i,
    {
        let found: Nearest = nearest_for(nearest, i);
        let orders: Vec<Order> = match Role::from(&my_creeps[i]) {
            Role::Collector => run_collector(&my_creeps[i], &my_spawn, found),
            Role::Attacker => run_attacker(&my_creeps[i], &enemy_spawn, found),
            _ => Vec::new(),
        };
        creeps.push(orders);
        i += 1;
    }
    Ok(Plan { spawn, creeps })
}

/// Two lists of creeps that agree on the role of each creep hold as many
/// creeps of every role.
pub proof fn lemma_counts_agree(first: Seq<Creep>, second: Seq<Creep>, role: Role, n: int)
    requires
        0 <= n <= first.len(),
        first.len() == second.len(),
        forall|k: int|
            0 <= k < first.len() ==> Role::of_creep(#[trigger] first[k]) == Role::of_creep(
                second[k],
            ),
    ensures
        count_role(first.take(n), role) == count_role(second.take(n), role),
    decreases n,
{
    let pred = |c: Creep| Role::of_creep(c) == role;
    if n == 0 {
        lemma_filter_start(first, pred);
        lemma_filter_start(second, pred);
    } else {
        lemma_counts_agree(first, second, role, n - 1);
        lemma_count_step(first, pred, n - 1);
        lemma_count_step(second, pred, n - 1);
        assert(Role::of_creep(first[n - 1]) == Role::of_creep(second[n - 1]));
    }
}

/// The spawner decides by the roles of the creeps and by nothing else. So
/// while a request is turned down, and the creeps keep their roles, every
/// tick asks for the same role, and with it for the same body.
pub proof fn lemma_refused_request_is_repeated(
    first: Seq<Creep>,
    second: Seq<Creep>,
    want_collectors: usize,
    want_attackers: usize,
)
    requires
        first.len() == second.len(),
        forall|k: int|
            0 <= k < first.len() ==> Role::of_creep(#[trigger] first[k]) == Role::of_creep(
                second[k],
            ),
    ensures
        CreepTypes::counted(first, want_collectors, want_attackers) == CreepTypes::counted(
            second,
            want_collectors,
            want_attackers,
        ),
        CreepTypes::counted(first, want_collectors, want_attackers).needed() == CreepTypes::counted(
            second,
            want_collectors,
            want_attackers,
        ).needed(),
{
    lemma_counts_agree(first, second, Role::Collector, first.len() as int);
    lemma_counts_agree(first, second, Role::Attacker, first.len() as int);
    assert(first.take(first.len() as int) == first);
    assert(second.take(second.len() as int) == second);
}

} // verus!
