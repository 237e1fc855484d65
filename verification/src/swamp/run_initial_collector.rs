//! A collector of the relay: three creeps in a row pass energy from a
//! container to the spawn.

use crate::global::utilities::{find_creep, object_to_creep};
use crate::intent::{Intent, Order, Target};
use crate::swamp::game_state::GameState;
use crate::world::{Creep, Structure};
use vstd::prelude::*;

verus! {

/// Why a collector of the relay could not be told what to do.
#[derive(Clone, Copy, Debug, PartialEq, Eq, Structural)]
pub enum RelayError {
    /// Every place of the relay is taken by another creep.
    NoPlace,
    /// The next place of the relay is not taken.
    NoCollector,
    /// The creep in the next place is not among the player's creeps.
    NextNotFound,
}

/// The place that a creep takes in the relay: the first that it holds
/// already or that is free, looking no further than the first `upto` places.
pub open spec fn place_of(ids: Seq<Option<u64>>, creep_id: u64, upto: int) -> Option<int>
    decreases upto,
{
    if upto <= 0 {
        None
    } else {
        match place_of(ids, creep_id, upto - 1) {
            Some(k) => Some(k),
            None => if ids[upto - 1] is None || ids[upto - 1] == Some(creep_id) {
                Some(upto - 1)
            } else {
                None
            },
        }
    }
}

/// The order that passes the load on to the creep in the place `index`.
pub open spec fn pass_on(ids: Seq<Option<u64>>, index: int, my_creeps: Seq<Creep>) -> Result<
    Order,
    RelayError,
> {
    match ids[index] {
        None => Err(RelayError::NoCollector),
        Some(next) => match find_creep(my_creeps, next) {
            None => Err(RelayError::NextNotFound),
            Some(creep) => Ok(Order::Always(Intent::Transfer(creep.id))),
        },
    }
}

/// What the creep in the place `index` does once it has its place.
///
/// It walks to its tile. While the relay is not complete that is all. Once
/// it is, the creep nearest to the spawn hands its load to the spawn, the
/// one in the middle hands it to that creep, and the one farthest out draws
/// from the container and hands on to the one in the middle. The orders
/// decided before a failure stand.
pub open spec fn relay_orders(
    game_state: GameState,
    index: int,
    spawn: Structure,
    my_creeps: Seq<Creep>,
    container: Structure,
) -> (Seq<Order>, Result<(), RelayError>) {
    let tile = game_state.initial_collector_positions[index];
    let walk = seq![Order::Always(Intent::MoveTo(Target::Position(tile.0, tile.1)))];
    if !game_state.relay_complete() {
        (walk, Ok(()))
    } else if index == 2 {
        (walk.push(Order::Always(Intent::Transfer(spawn.id))), Ok(()))
    } else if index == 1 {
        match pass_on(game_state.initial_collector_ids@, 2, my_creeps) {
            Ok(order) => (walk.push(order), Ok(())),
            Err(e) => (walk, Err(e)),
        }
    } else {
        let drawn = walk.push(Order::Always(Intent::Withdraw(container.id)));
        match pass_on(game_state.initial_collector_ids@, 1, my_creeps) {
            Ok(order) => (drawn.push(order), Ok(())),
            Err(e) => (drawn, Err(e)),
        }
    }
}

/// The orders of a collector of the relay, and whether all went well.
///
/// The creep is given its place in the relay first, which the memory keeps.
/// A creep for which no place is left gets no orders.
pub fn run_initial_collector(
    creep: &Creep,
    spawn: &Structure,
    game_state: &mut GameState,
    my_creeps: &Vec<Creep>,
    container: &Structure,
) -> (result: (Vec<Order>, Result<(), RelayError>))
    ensures
        place_after(*old(game_state), creep.id, *final(game_state)),
        match place_of(old(game_state).initial_collector_ids@, creep.id, 3) {
            None => result.0@.len() == 0 && result.1 == Err::<(), RelayError>(RelayError::NoPlace),
            Some(index) => (result.0@, result.1) == relay_orders(
                *final(game_state),
                index,
                *spawn,
                my_creeps@,
                *container,
            ),
        },
{
    let id: u64 = creep.id;
    let collector_index: usize = match get_collector_index(game_state, id) {
        Ok(index) => index,
        Err(e) => {
            return (Vec::new(), Err(e));
        },
    };
    let tile: (u8, u8) = game_state.initial_collector_positions[collector_index];
    let mut orders: Vec<Order> = vec![Order::Always(Intent::MoveTo(Target::Position(tile.0, tile.1)))];
    if !game_state.have_all_initial_collectors() {
        return (orders, Ok(()));
    }
    if collector_index == 2 {
        orders.push(Order::Always(Intent::Transfer(spawn.id)));
    } else if collector_index == 1 {
        match transfer_to_next_creep(game_state, 2, my_creeps) {
            Ok(order) => {
                orders.push(order);
            },
            Err(e) => {
                return (orders, Err(e));
            },
        }
    } else {
        orders.push(Order::Always(Intent::Withdraw(container.id)));
        match transfer_to_next_creep(game_state, 1, my_creeps) {
            Ok(order) => {
                orders.push(order);
            },
            Err(e) => {
                return (orders, Err(e));
            },
        }
    }
    (orders, Ok(()))
}

/// The memory after a creep has asked for its place: the place it got is
/// marked with its id, and nothing else has changed.
pub open spec fn place_after(before: GameState, creep_id: u64, after: GameState) -> bool {
    &&& after.have_initial_collectors == before.have_initial_collectors
    &&& after.want_initial_collectors == before.want_initial_collectors
    &&& after.initial_collector_positions == before.initial_collector_positions
    &&& after.enemy_healer_ids == before.enemy_healer_ids
    &&& after.enemy_melee_ids == before.enemy_melee_ids
    &&& after.enemy_ranger_ids == before.enemy_ranger_ids
    &&& after.enemy_collector_ids == before.enemy_collector_ids
    &&& after.enemy_unknown_ids == before.enemy_unknown_ids
    &&& after.initial_collector_ids@ == match place_of(before.initial_collector_ids@, creep_id, 3) {
        Some(index) => before.initial_collector_ids@.update(index, Some(creep_id)),
        None => before.initial_collector_ids@,
    }
}

/// Finds the place of a creep in the relay, giving it the first free place
/// if it has none yet.
pub fn get_collector_index(game_state: &mut GameState, creep_id: u64) -> (index: Result<
    usize,
    RelayError,
>)
    ensures
        place_after(*old(game_state), creep_id, *final(game_state)),
        match place_of(old(game_state).initial_collector_ids@, creep_id, 3) {
            Some(place) => index == Ok::<usize, RelayError>(place as usize) && 0 <= place < 3,
            None => index == Err::<usize, RelayError>(RelayError::NoPlace),
        },
{
    let mut index: usize = 0;
    while index < 3
        invariant
            index <= 3,
            *game_state == *old(game_state),
            place_of(game_state.initial_collector_ids@, creep_id, index as int) is None,
        decreases 3 - index,
    {
        match game_state.initial_collector_ids[index] {
            Some(set_id) => {
                if set_id == creep_id {
                    proof {
                        lemma_place_found(
                            game_state.initial_collector_ids@,
                            creep_id,
                            index as int,
                            3,
                        );
                        assert(game_state.initial_collector_ids@.update(
                            index as int,
                            Some(creep_id),
                        ) =~= game_state.initial_collector_ids@);
                    }
                    return Ok(index);
                }
            },
            None => {
                proof {
                    lemma_place_found(game_state.initial_collector_ids@, creep_id, index as int, 3);
                }
                game_state.initial_collector_ids[index] = Some(creep_id);
                return Ok(index);
            },
        }
        index += 1;
    }
    Err(RelayError::NoPlace)
}

/// A place that is found among the first `index + 1` is the place found
/// among any more.
pub proof fn lemma_place_found(ids: Seq<Option<u64>>, creep_id: u64, index: int, upto: int)
    requires
        0 <= index < upto,
        place_of(ids, creep_id, index) is None,
        ids[index] is None || ids[index] == Some(creep_id),
    ensures
        place_of(ids, creep_id, upto) == Some(index),
    decreases upto - index,
{
    if upto > index + 1 {
        lemma_place_found(ids, creep_id, index, upto - 1);
    }
}

/// The order that passes the load on to the creep in the place `index` of
/// the relay, which must be one of its three places.
pub fn transfer_to_next_creep(game_state: &GameState, index: usize, my_creeps: &Vec<Creep>) -> (order:
    Result<Order, RelayError>)
    requires
        index < 3,
    ensures
        order == pass_on(game_state.initial_collector_ids@, index as int, my_creeps@),
{
    let next_creep_id: u64 = match game_state.initial_collector_ids[index] {
        Some(id) => id,
        None => {
            return Err(RelayError::NoCollector);
        },
    };
    match object_to_creep(my_creeps, next_creep_id) {
        Some(next_creep) => Ok(Order::Always(Intent::Transfer(next_creep.id))),
        None => Err(RelayError::NextNotFound),
    }
}

} // verus!
