//! What the relay strategy knows of the map, read once from the host's lists.

use crate::swamp::commands::CreateCollectorCreepCommand;
use crate::world::{Creep, Structure};
use crate::seqs::{lemma_filter_start, lemma_filter_step};
use vstd::prelude::*;

verus! {

/// A spawn left of this column is on the left side of the map.
pub const HALFWAY: u8 = 50;

/// The containers beside a spawn stand this many columns away from it,
/// towards the edge of the map.
pub const CONTAINER_OFFSET: u8 = 4;

/// The side of the map that the player starts on.
#[derive(Clone, Copy, Debug, PartialEq, Eq, Structural)]
pub enum Side {
    Left,
    Right,
}
/// What the relay strategy knows of the map and of its own creeps.

pub struct State {
    pub my_spawn: Structure,
    pub enemy_spawn: Structure,
    pub my_side: Side,
    /// The containers beside the player's spawn that hold resources.
    pub spawn_containers: Vec<Structure>,
    pub initial_collectors: Vec<Creep>,
    /// The commands that are still to be carried out.
    pub queue: Vec<CreateCollectorCreepCommand>,
}

/// The last spawn of the list that is the player's (`mine`), or the last
/// that is not. A spawn of which the host does not say whose it is counts as
/// not the player's.
pub open spec fn last_owned(spawns: Seq<Structure>, mine: bool) -> Option<Structure>
    decreases spawns.len(),
{
    if spawns.len() == 0 {
        None
    } else if spawns.last().owned_by(mine) {
        Some(spawns.last())
    } else {
        last_owned(spawns.drop_last(), mine)
    }
}

pub open spec fn side_of(spawn: Structure) -> Side {
    if spawn.x < HALFWAY {
        Side::Left
    } else {
        Side::Right
    }
}

/// Whether a container holds resources and stands in the column
/// [`CONTAINER_OFFSET`] away from the spawn, towards the edge of the map.
pub open spec fn beside_spawn(container: Structure, spawn: Structure) -> bool {
    container.used_capacity > 0 && match side_of(spawn) {
        Side::Left => container.x == spawn.x - CONTAINER_OFFSET,
        Side::Right => container.x == spawn.x + CONTAINER_OFFSET,
    }
}

impl State {
    /// Reads the state off the host's lists of spawns and containers. There
    /// is none while the host shows no spawn of the player's, or none of the
    /// enemy's.
    pub fn new(spawns: &Vec<Structure>, containers: &Vec<Structure>) -> (state: Option<State>)
        ensures
            (last_owned(spawns@, true) is None || last_owned(spawns@, false) is None)
                ==> state is None,
            (last_owned(spawns@, true) is Some && last_owned(spawns@, false) is Some) ==> (
            state matches Some(s) && Some(s.my_spawn) == last_owned(spawns@, true) && Some(
                s.enemy_spawn,
            ) == last_owned(spawns@, false) && s.my_side == side_of(s.my_spawn)
                && s.spawn_containers@ == containers@.filter(
                |c: Structure| beside_spawn(c, s.my_spawn),
            ) && s.initial_collectors@.len() == 0 && s.queue@.len() == 0),
    {
        let mut my_spawn: Option<Structure> = None;
        let mut enemy_spawn: Option<Structure> = None;
        let mut i: usize = 0;
        assert(spawns@.take(0) =~= Seq::<Structure>::empty());
        while i < spawns.len()
            invariant
                i <= spawns.len(),
                my_spawn == last_owned(spawns@.take(i as int), true),
                enemy_spawn == last_owned(spawns@.take(i as int), false),
            decreases spawns.len() - i,
        {
            assert(spawns@.take(i as int + 1).drop_last() =~= spawns@.take(i as int));
            let mine: bool = match spawns[i].my {
                Some(mine) => mine,
                None => false,
            };
            if mine {
                my_spawn = Some(spawns[i]);
            } else {
                enemy_spawn = Some(spawns[i]);
            }
            i += 1;
        }
        assert(spawns@.take(spawns.len() as int) =~= spawns@);
        let my_spawn: Structure = match my_spawn {
            Some(spawn) => spawn,
            None => {
                return None;
            },
        };
        let enemy_spawn: Structure = match enemy_spawn {
            Some(spawn) => spawn,
            None => {
                return None;
            },
        };
        let my_side: Side = if my_spawn.x < HALFWAY {
            Side::Left
        } else {
            Side::Right
        };
        let mut spawn_containers: Vec<Structure> = Vec::new();
        let mut k: usize = 0;
        proof {
            lemma_filter_start(containers@, |c: Structure| beside_spawn(c, my_spawn));
        }
        while k < containers.len()
            invariant
                k <= containers.len(),
                my_side == side_of(my_spawn),
                spawn_containers@ == containers@.take(k as int).filter(
                    |c: Structure| beside_spawn(c, my_spawn),
                ),
            decreases containers.len() - k,
        {
            proof {
                lemma_filter_step(containers@, |c: Structure| beside_spawn(c, my_spawn), k as int);
            }
            let container: Structure = containers[k];
            let in_column: bool = match my_side {
                Side::Left => my_spawn.x >= CONTAINER_OFFSET && container.x == my_spawn.x
                    - CONTAINER_OFFSET,
                Side::Right => my_spawn.x <= u8::MAX - CONTAINER_OFFSET && container.x
                    == my_spawn.x + CONTAINER_OFFSET,
            };
            if container.used_capacity > 0 && in_column {
                spawn_containers.push(container);
            }
            k += 1;
        }
        proof {
            lemma_filter_start(containers@, |c: Structure| beside_spawn(c, my_spawn));
        }
        Some(
            State {
                my_spawn,
                enemy_spawn,
                my_side,
                spawn_containers,
                initial_collectors: Vec::new(),
                queue: Vec::new(),
            },
        )
    }
}

} // verus!
