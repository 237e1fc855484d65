//! The spawner of the relay strategy: the relay's collectors first, then
//! military creeps without end.

use crate::swamp::game_state::GameState;
use crate::swamp::role::{Role, RoleError};
use crate::world::{Creep, CreepView, Part};
use vstd::prelude::*;

verus! {

/// What to ask the spawn for: a body, and the role that the creep is to get.
pub struct SpawnRequest {
    pub role: Role,
    pub body: Vec<Part>,
}

/// A creep was made without a role to give it.
#[derive(Clone, Copy, Debug, PartialEq, Eq, Structural)]
pub enum SpawnError {
    NoRole,
}

pub open spec fn initial_collector_body() -> Seq<Part> {
    seq![Part::Move, Part::Carry]
}

pub open spec fn military_body() -> Seq<Part> {
    seq![
        Part::Move,
        Part::Move,
        Part::Move,
        Part::Move,
        Part::Move,
        Part::Move,
        Part::Move,
        Part::Move,
        Part::Move,
        Part::Move,
        Part::Move,
        Part::Move,
        Part::RangedAttack,
        Part::Heal,
    ]
}

/// The role to make next: a collector while the relay is short of one, a
/// military creep otherwise.
pub open spec fn next_role(game_state: GameState) -> Role {
    if game_state.have_initial_collectors < game_state.want_initial_collectors {
        Role::InitialCollector
    } else {
        Role::Military
    }
}

/// The body that a creep of the given role is made with.
pub open spec fn body_of(role: Role) -> Seq<Part> {
    match role {
        Role::InitialCollector => initial_collector_body(),
        _ => military_body(),
    }
}

/// Decides what to ask the spawn for on this tick.
pub fn run_spawner(game_state: &GameState) -> (request: SpawnRequest)
    ensures
        request.role == next_role(*game_state),
        request.body@ == body_of(request.role),
{
    if game_state.have_initial_collectors < game_state.want_initial_collectors {
        SpawnRequest { role: Role::InitialCollector, body: vec![Part::Move, Part::Carry] }
    } else {
        SpawnRequest {
            role: Role::Military,
            body: vec![
                Part::Move,
                Part::Move,
                Part::Move,
                Part::Move,
                Part::Move,
                Part::Move,
                Part::Move,
                Part::Move,
                Part::Move,
                Part::Move,
                Part::Move,
                Part::Move,
                Part::RangedAttack,
                Part::Heal,
            ],
        }
    }
}

/// Books a creep that the spawn has just begun to make: a collector is
/// counted, and the creep is marked with its role. With no role to give,
/// nothing is changed and the call fails.
pub fn spawn_creep(role: Role, game_state: &mut GameState, creep: &mut Creep) -> (result: Result<
    (),
    SpawnError,
>)
    requires
        role == Role::InitialCollector ==> old(game_state).have_initial_collectors < u8::MAX,
    ensures
        role == Role::Unassigned ==> result is Err && *final(game_state) == *old(game_state)
            && *final(creep) == *old(creep),
        role != Role::Unassigned ==> result is Ok && final(creep)@ == (CreepView {
            role: Some(role.tag_spec()),
            ..old(creep)@
        }) && Role::of_creep(*final(creep)) == Ok::<Role, RoleError>(role),
        role == Role::InitialCollector ==> final(game_state).have_initial_collectors == old(game_state).have_initial_collectors + 1,
        role == Role::Military ==> final(game_state).have_initial_collectors == old(game_state).have_initial_collectors,
        final(game_state).want_initial_collectors == old(game_state).want_initial_collectors,
        final(game_state).initial_collector_positions == old(game_state).initial_collector_positions,
        final(game_state).initial_collector_ids == old(game_state).initial_collector_ids,
        final(game_state).enemy_healer_ids == old(game_state).enemy_healer_ids,
        final(game_state).enemy_melee_ids == old(game_state).enemy_melee_ids,
        final(game_state).enemy_ranger_ids == old(game_state).enemy_ranger_ids,
        final(game_state).enemy_collector_ids == old(game_state).enemy_collector_ids,
        final(game_state).enemy_unknown_ids == old(game_state).enemy_unknown_ids,
{
    match role {
        Role::Unassigned => {
            return Err(SpawnError::NoRole);
        },
        Role::InitialCollector => {
            game_state.have_initial_collectors += 1;
        },
        Role::Military => {},
    }
    role.add_to_creep(creep);
    Ok(())
}

/// While the host turns the request down the memory does not change, so the
/// next tick asks for a creep of the same role with the same body.
pub proof fn lemma_refused_request_is_repeated(first: GameState, second: GameState)
    requires
        second.have_initial_collectors == first.have_initial_collectors,
        second.want_initial_collectors == first.want_initial_collectors,
    ensures
        next_role(second) == next_role(first),
        body_of(next_role(second)) == body_of(next_role(first)),
{
}

} // verus!
