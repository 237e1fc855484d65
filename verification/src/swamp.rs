//! The swamp arena: a spawn on either side, containers of energy, and a
//! swamp in between.
//!
//! [`rush`] and [`squad`] are complete strategies of their own. The other
//! modules make up the relay strategy, whose tick begins in [`run`].

pub mod commands;
pub mod game_state;
pub mod role;
pub mod run_attackers;
pub mod run_collector;
pub mod run_defender;
pub mod run_healer;
pub mod run_initial_collector;
pub mod run_military;
pub mod rush;
pub mod spawner;
pub mod squad;
pub mod state;

use crate::swamp::commands::{Command, CreateCollectorCreepCommand};
use crate::swamp::state::State;
use crate::world::Creep;
use vstd::prelude::*;

verus! {

/// How many collectors the relay is started with.
pub const FIRST_COLLECTORS: usize = 3;

/// The host's answer to the `i`-th command. A missing answer is a refusal.
pub open spec fn answer_at(spawned: Seq<Option<Creep>>, i: int) -> Option<Creep> {
    if 0 <= i < spawned.len() {
        spawned[i]
    } else {
        None
    }
}

/// The creeps that the host made in answer to the first `n` commands, in
/// the order of the commands.
pub open spec fn made(spawned: Seq<Option<Creep>>, n: int) -> Seq<Creep>
    decreases n,
{
    if n <= 0 {
        Seq::empty()
    } else {
        match answer_at(spawned, n - 1) {
            Some(creep) => made(spawned, n - 1).push(creep),
            None => made(spawned, n - 1),
        }
    }
}

/// How many of the first `n` commands the host refused.
pub open spec fn refused(spawned: Seq<Option<Creep>>, n: int) -> nat
    decreases n,
{
    if n <= 0 {
        0
    } else if answer_at(spawned, n - 1) is None {
        refused(spawned, n - 1) + 1
    } else {
        refused(spawned, n - 1)
    }
}

/// Begins a tick: takes the commands that are waiting out of the state, and
/// on the first tick adds the commands that make the first collectors. The
/// caller asks the spawn for the body of each and hands the answers to
/// [`finish`], which ends the tick.
pub fn run(ticks: u32, state: &mut State) -> (queue: Vec<CreateCollectorCreepCommand>)
    ensures
        queue.len() == old(state).queue.len() + if ticks == 1 {
            FIRST_COLLECTORS as int
        } else {
            0
        },
        final(state).queue.len() == 0,
        final(state).my_spawn == old(state).my_spawn,
        final(state).enemy_spawn == old(state).enemy_spawn,
        final(state).my_side == old(state).my_side,
        final(state).spawn_containers == old(state).spawn_containers,
        final(state).initial_collectors == old(state).initial_collectors,
{
    let mut queue: Vec<CreateCollectorCreepCommand> = Vec::new();
    std::mem::swap(&mut queue, &mut state.queue);
    if ticks == 1 {
        queue.push(CreateCollectorCreepCommand);
        queue.push(CreateCollectorCreepCommand);
        queue.push(CreateCollectorCreepCommand);
    }
    queue
}

/// Carries out the commands with the answers of the host, `spawned[i]` for
/// the `i`-th command, and returns the commands to try again on the next
/// tick: one for each that the host refused. The creeps that were made join
/// the collectors of the state.
pub fn process_queue(
    queue: Vec<CreateCollectorCreepCommand>,
    state: &mut State,
    spawned: Vec<Option<Creep>>,
) -> (failed: Vec<CreateCollectorCreepCommand>)
    ensures
        failed.len() == refused(spawned@, queue.len() as int),
        final(state).initial_collectors@ == old(state).initial_collectors@ + made(
            spawned@,
            queue.len() as int,
        ),
        final(state).my_spawn == old(state).my_spawn,
        final(state).enemy_spawn == old(state).enemy_spawn,
        final(state).my_side == old(state).my_side,
        final(state).spawn_containers == old(state).spawn_containers,
        final(state).queue == old(state).queue,
{
    let ghost answers = spawned@;
    let mut rest: Vec<Option<Creep>> = spawned;
    let mut failed: Vec<CreateCollectorCreepCommand> = Vec::new();
    let mut i: usize = 0;
    assert(rest@.skip(0) =~= rest@);
    assert(state.initial_collectors@ + Seq::<Creep>::empty() =~= state.initial_collectors@);
    while i < queue.len()
        invariant
            i <= queue.len(),
            i <= answers.len() ==> rest@ == answers.skip(i as int),
            i > answers.len() ==> rest@.len() == 0,
            failed.len() == refused(answers, i as int),
            state.initial_collectors@ == old(state).initial_collectors@ + made(answers, i as int),
            state.my_spawn == old(state).my_spawn,
            state.enemy_spawn == old(state).enemy_spawn,
            state.my_side == old(state).my_side,
            state.spawn_containers == old(state).spawn_containers,
            state.queue == old(state).queue,
        decreases queue.len() - i,
    {
        let answer: Option<Creep> = if rest.len() > 0 {
            let first = rest.remove(0);
            assert(rest@ =~= answers.skip(i as int + 1));
            first
        } else {
            None
        };
        assert(answer == answer_at(answers, i as int));
        let ghost before = state.initial_collectors@;
        if !queue[i].execute(state, answer) {
            failed.push(queue[i].clone());
        }
        assert(state.initial_collectors@ =~= old(state).initial_collectors@ + made(
            answers,
            i as int + 1,
        ));
        i += 1;
    }
    failed
}

/// Ends a tick: carries out the commands that [`run`] handed out with the
/// answers of the host, `spawned[i]` for the `i`-th command, and keeps in the
/// state the commands to try again on the next tick, one for each that the
/// host refused. The creeps that were made join the collectors of the state.
pub fn finish(
    queue: Vec<CreateCollectorCreepCommand>,
    state: &mut State,
    spawned: Vec<Option<Creep>>,
)
    ensures
        final(state).queue@.len() == refused(spawned@, queue.len() as int),
        final(state).initial_collectors@ == old(state).initial_collectors@ + made(
            spawned@,
            queue.len() as int,
        ),
        final(state).my_spawn == old(state).my_spawn,
        final(state).enemy_spawn == old(state).enemy_spawn,
        final(state).my_side == old(state).my_side,
        final(state).spawn_containers == old(state).spawn_containers,
{
    let failed_jobs = process_queue(queue, state, spawned);
    state.queue = failed_jobs;
}

/// Every command that is handed out on a tick is either answered with a
/// creep or kept for the next tick: the two counts add up to the number of
/// commands, and nothing is kept where the host makes a creep for every
/// command.
pub proof fn lemma_refused_is_bounded(spawned: Seq<Option<Creep>>, n: int)
    requires
        0 <= n,
    ensures
        refused(spawned, n) <= n,
        refused(spawned, n) + made(spawned, n).len() == n,
        (forall|i: int| 0 <= i < n ==> answer_at(spawned, i) is Some) ==> refused(spawned, n) == 0,
    decreases n,
{
    if n > 0 {
        lemma_refused_is_bounded(spawned, n - 1);
    }
}

} // verus!
