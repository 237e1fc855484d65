//! What the bot knows from tick to tick.

use crate::modes::spawn_and_swamp::spawner::SpawnerCommand;
use crate::world::Structure;
use vstd::prelude::*;

verus! {
/// The spawns that the bot knows of, and the commands that are waiting.

pub struct State {
    pub my_spawn: Option<Structure>,
    pub enemy_spawn: Option<Structure>,
    pub commands: Vec<SpawnerCommand>,
}

/// The last spawn of the list of which the host says that it is the
/// player's (`mine`), or that it is not, and `known` where there is none.
pub open spec fn last_known(spawns: Seq<Structure>, mine: bool, known: Option<Structure>) -> Option<
    Structure,
>
    decreases spawns.len(),
{
    if spawns.len() == 0 {
        known
    } else if spawns.last().my == Some(mine) {
        Some(spawns.last())
    } else {
        last_known(spawns.drop_last(), mine, known)
    }
}

impl State {
    /// Takes note of the spawns that the host shows. A spawn of which the
    /// host does not say whose it is is passed over.
    pub fn initialize(&mut self, spawns: &Vec<Structure>)
        ensures
            final(self).my_spawn == last_known(spawns@, true, old(self).my_spawn),
            final(self).enemy_spawn == last_known(spawns@, false, old(self).enemy_spawn),
            final(self).commands == old(self).commands,
    {
        let mut i: usize = 0;
        assert(spawns@.take(0) =~= Seq::<Structure>::empty());
        while i < spawns.len()
            invariant
                i <= spawns.len(),
                self.my_spawn == last_known(spawns@.take(i as int), true, old(self).my_spawn),
                self.enemy_spawn == last_known(
                    spawns@.take(i as int),
                    false,
                    old(self).enemy_spawn,
                ),
                self.commands == old(self).commands,
            decreases spawns.len() - i,
        {
            assert(spawns@.take(i as int + 1).drop_last() =~= spawns@.take(i as int));
            if let Some(is_mine) = spawns[i].my {
                if is_mine {
                    self.my_spawn = Some(spawns[i]);
                } else {
                    self.enemy_spawn = Some(spawns[i]);
                }
            }
            i += 1;
        }
        assert(spawns@.take(spawns.len() as int) =~= spawns@);
    }
}

impl Default for State {
    fn default() -> (state: State)
        ensures
            state.my_spawn is None,
            state.enemy_spawn is None,
            state.commands@.len() == 0,
    {
        State { my_spawn: None, enemy_spawn: None, commands: Vec::new() }
    }
}

} // verus!
