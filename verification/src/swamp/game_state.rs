//! What the relay strategy remembers from tick to tick.

use crate::seqs::{lemma_filter_start, lemma_filter_step};
use crate::swamp::role::EnemyRole;
use crate::world::{Creep, Structure};
use vstd::prelude::*;

verus! {

/// A spawn left of this column has its relay on its left.
pub const MIDDLE: u8 = 20;

/// How many collectors make up the relay.
pub const RELAY_LENGTH: u8 = 3;

/// The memory of the relay strategy.
#[derive(Debug)]
pub struct GameState {
    pub have_initial_collectors: u8,
    pub want_initial_collectors: u8,
    /// Where the collectors of the relay stand, the farthest from the spawn
    /// first.
    pub initial_collector_positions: [(u8, u8); 3],
    /// Which creep holds which place of the relay.
    pub initial_collector_ids: [Option<u64>; 3],
    pub enemy_healer_ids: Vec<u64>,
    pub enemy_melee_ids: Vec<u64>,
    pub enemy_ranger_ids: Vec<u64>,
    pub enemy_collector_ids: Vec<u64>,
    pub enemy_unknown_ids: Vec<u64>,
}

/// The relay cannot be laid out: it would leave the map.
#[derive(Clone, Copy, Debug, PartialEq, Eq, Structural)]
pub enum StateError {
    OffMap,
}

/// Whether the three tiles beside the spawn, on the side that the relay goes
/// to, are on the map.
pub open spec fn relay_fits(spawn: Structure) -> bool {
    if spawn.x < MIDDLE {
        spawn.x >= RELAY_LENGTH
    } else {
        spawn.x + RELAY_LENGTH <= u8::MAX
    }
}

/// Where the relay stands: on the three tiles next to the spawn in its row,
/// to its left if the spawn is left of [`MIDDLE`], else to its right, the
/// farthest tile first.
pub open spec fn relay_positions(spawn: Structure) -> Seq<(u8, u8)> {
    if spawn.x < MIDDLE {
        seq![
            ((spawn.x - 3) as u8, spawn.y),
            ((spawn.x - 2) as u8, spawn.y),
            ((spawn.x - 1) as u8, spawn.y),
        ]
    } else {
        seq![
            ((spawn.x + 3) as u8, spawn.y),
            ((spawn.x + 2) as u8, spawn.y),
            ((spawn.x + 1) as u8, spawn.y),
        ]
    }
}

/// The ids of the creeps of `enemies` that are taken to be `role`, in the
/// order of the list.
pub open spec fn ids_with_role(enemies: Seq<Creep>, role: EnemyRole) -> Seq<u64> {
    enemies.filter(|c: Creep| EnemyRole::of_creep(c) == role).map_values(|c: Creep| c.id)
}

/// One enemy more adds its id to the list of its role and to no other.
pub proof fn lemma_ids_step(enemies: Seq<Creep>, role: EnemyRole, i: int)
    requires
        0 <= i < enemies.len(),
    ensures
        ids_with_role(enemies.take(i + 1), role) == if EnemyRole::of_creep(enemies[i]) == role {
            ids_with_role(enemies.take(i), role).push(enemies[i].id)
        } else {
            ids_with_role(enemies.take(i), role)
        },
{
    let pred = |c: Creep| EnemyRole::of_creep(c) == role;
    lemma_filter_step(enemies, pred, i);
    let before = enemies.take(i).filter(pred);
    assert(before.push(enemies[i]).map_values(|c: Creep| c.id) =~= before.map_values(
        |c: Creep| c.id,
    ).push(enemies[i].id));
}

/// No enemies, no ids; and all of the list is its longest prefix.
pub proof fn lemma_ids_start(enemies: Seq<Creep>, role: EnemyRole)
    ensures
        ids_with_role(enemies.take(0), role) == Seq::<u64>::empty(),
        enemies.take(enemies.len() as int) == enemies,
{
    lemma_filter_start(enemies, |c: Creep| EnemyRole::of_creep(c) == role);
    assert(Seq::<Creep>::empty().map_values(|c: Creep| c.id) =~= Seq::<u64>::empty());
}

impl GameState {
    /// Whether every place of the relay is taken.
    pub open spec fn relay_complete(&self) -> bool {
        self.initial_collector_ids[0] is Some && self.initial_collector_ids[1] is Some
            && self.initial_collector_ids[2] is Some
    }

    /// A fresh memory for the given spawn: no collectors yet and three
    /// wanted, the relay laid out beside the spawn, and no enemies known.
    /// There is none where the relay would leave the map.
    pub fn new(spawn: &Structure) -> (state: Result<GameState, StateError>)
        ensures
            !relay_fits(*spawn) ==> state == Err::<GameState, StateError>(StateError::OffMap),
            relay_fits(*spawn) ==> (state matches Ok(fresh) && fresh.have_initial_collectors == 0
                && fresh.want_initial_collectors == 3 && fresh.initial_collector_positions@
                == relay_positions(*spawn) && fresh.initial_collector_ids@ == seq![
                None::<u64>,
                None::<u64>,
                None::<u64>,
            ] && fresh.enemy_healer_ids@.len() == 0 && fresh.enemy_melee_ids@.len() == 0
                && fresh.enemy_ranger_ids@.len() == 0 && fresh.enemy_collector_ids@.len() == 0
                && fresh.enemy_unknown_ids@.len() == 0),
    {
        match GameState::calculate_initial_collector_position(spawn) {
            None => Err(StateError::OffMap),
            Some(initial_collector_positions) => {
                let initial_collector_ids: [Option<u64>; 3] = [None, None, None];
                assert(initial_collector_ids@ =~= seq![None::<u64>, None::<u64>, None::<u64>]);
                Ok(
                    GameState {
                        have_initial_collectors: 0,
                        want_initial_collectors: 3,
                        initial_collector_positions,
                        initial_collector_ids,
                        enemy_healer_ids: Vec::new(),
                        enemy_melee_ids: Vec::new(),
                        enemy_ranger_ids: Vec::new(),
                        enemy_collector_ids: Vec::new(),
                        enemy_unknown_ids: Vec::new(),
                    },
                )
            },
        }
    }

    /// Whether every place of the relay is taken.
    pub fn have_all_initial_collectors(&self) -> (all: bool)
        ensures
            all == self.relay_complete(),
    {
        self.initial_collector_ids[0].is_some() && self.initial_collector_ids[1].is_some()
            && self.initial_collector_ids[2].is_some()
    }

    /// Forgets every enemy.
    pub fn reset_enemy_ids(&mut self)
        ensures
            final(self).enemy_healer_ids@.len() == 0,
            final(self).enemy_unknown_ids@.len() == 0,
            final(self).enemy_collector_ids@.len() == 0,
            final(self).enemy_melee_ids@.len() == 0,
            final(self).enemy_ranger_ids@.len() == 0,
            final(self).have_initial_collectors == old(self).have_initial_collectors,
            final(self).want_initial_collectors == old(self).want_initial_collectors,
            final(self).initial_collector_positions == old(self).initial_collector_positions,
            final(self).initial_collector_ids == old(self).initial_collector_ids,
    {
        self.enemy_healer_ids = Vec::new();
        self.enemy_unknown_ids = Vec::new();
        self.enemy_collector_ids = Vec::new();
        self.enemy_melee_ids = Vec::new();
        self.enemy_ranger_ids = Vec::new();
    }

    /// Files the id of every enemy under what the enemy is taken to be, after
    /// the ids that are there already.
    pub fn store_enemy_ids(&mut self, enemies: &Vec<Creep>)
        ensures
            final(self).enemy_healer_ids@ == old(self).enemy_healer_ids@ + ids_with_role(
                enemies@,
                EnemyRole::Healer,
            ),
            final(self).enemy_unknown_ids@ == old(self).enemy_unknown_ids@ + ids_with_role(
                enemies@,
                EnemyRole::Unknown,
            ),
            final(self).enemy_collector_ids@ == old(self).enemy_collector_ids@ + ids_with_role(
                enemies@,
                EnemyRole::Collector,
            ),
            final(self).enemy_melee_ids@ == old(self).enemy_melee_ids@ + ids_with_role(
                enemies@,
                EnemyRole::Melee,
            ),
            final(self).enemy_ranger_ids@ == old(self).enemy_ranger_ids@ + ids_with_role(
                enemies@,
                EnemyRole::Ranger,
            ),
            final(self).have_initial_collectors == old(self).have_initial_collectors,
            final(self).want_initial_collectors == old(self).want_initial_collectors,
            final(self).initial_collector_positions == old(self).initial_collector_positions,
            final(self).initial_collector_ids == old(self).initial_collector_ids,
    {
        let mut i: usize = 0;
        proof {
            lemma_ids_start(enemies@, EnemyRole::Healer);
            lemma_ids_start(enemies@, EnemyRole::Unknown);
            lemma_ids_start(enemies@, EnemyRole::Collector);
            lemma_ids_start(enemies@, EnemyRole::Melee);
            lemma_ids_start(enemies@, EnemyRole::Ranger);
        }
        while i < enemies.len()
            invariant
                i <= enemies.len(),
                self.enemy_healer_ids@ == old(self).enemy_healer_ids@ + ids_with_role(
                    enemies@.take(i as int),
                    EnemyRole::Healer,
                ),
                self.enemy_unknown_ids@ == old(self).enemy_unknown_ids@ + ids_with_role(
                    enemies@.take(i as int),
                    EnemyRole::Unknown,
                ),
                self.enemy_collector_ids@ == old(self).enemy_collector_ids@ + ids_with_role(
                    enemies@.take(i as int),
                    EnemyRole::Collector,
                ),
                self.enemy_melee_ids@ == old(self).enemy_melee_ids@ + ids_with_role(
                    enemies@.take(i as int),
                    EnemyRole::Melee,
                ),
                self.enemy_ranger_ids@ == old(self).enemy_ranger_ids@ + ids_with_role(
                    enemies@.take(i as int),
                    EnemyRole::Ranger,
                ),
                self.have_initial_collectors == old(self).have_initial_collectors,
                self.want_initial_collectors == old(self).want_initial_collectors,
                self.initial_collector_positions == old(self).initial_collector_positions,
                self.initial_collector_ids == old(self).initial_collector_ids,
            decreases enemies.len() - i,
        {
            proof {
                lemma_ids_step(enemies@, EnemyRole::Healer, i as int);
                lemma_ids_step(enemies@, EnemyRole::Unknown, i as int);
                lemma_ids_step(enemies@, EnemyRole::Collector, i as int);
                lemma_ids_step(enemies@, EnemyRole::Melee, i as int);
                lemma_ids_step(enemies@, EnemyRole::Ranger, i as int);
            }
            let enemy_id: u64 = enemies[i].id;
            let enemy_role = match EnemyRole::try_from(&enemies[i]) {
                Ok(role) => role,
                Err(_) => EnemyRole::Unknown,
            };
            match enemy_role {
                EnemyRole::Healer => self.enemy_healer_ids.push(enemy_id),
                EnemyRole::Unknown => self.enemy_unknown_ids.push(enemy_id),
                EnemyRole::Collector => self.enemy_collector_ids.push(enemy_id),
                EnemyRole::Melee => self.enemy_melee_ids.push(enemy_id),
                EnemyRole::Ranger => self.enemy_ranger_ids.push(enemy_id),
            }
            i += 1;
        }
        proof {
            lemma_ids_start(enemies@, EnemyRole::Healer);
        }
    }

    /// Lays out the relay beside the spawn, where it fits on the map.
    pub fn calculate_initial_collector_position(spawn: &Structure) -> (positions: Option<
        [(u8, u8); 3],
    >)
        ensures
            !relay_fits(*spawn) ==> positions is None,
            relay_fits(*spawn) ==> (positions matches Some(p) && p@ == relay_positions(*spawn)),
    {
        let y: u8 = spawn.y;
        let spawn_x: u8 = spawn.x;
        if spawn_x < MIDDLE {
            if spawn_x < RELAY_LENGTH {
                return None;
            }
            let p: [(u8, u8); 3] = [(spawn_x - 3, y), (spawn_x - 2, y), (spawn_x - 1, y)];
            assert(p@ =~= relay_positions(*spawn));
            Some(p)
        } else {
            if spawn_x > u8::MAX - RELAY_LENGTH {
                return None;
            }
            let p: [(u8, u8); 3] = [(spawn_x + 3, y), (spawn_x + 2, y), (spawn_x + 1, y)];
            assert(p@ =~= relay_positions(*spawn));
            Some(p)
        }
    }
}

} // verus!
