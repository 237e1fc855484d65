//! Lookups into the lists of objects that the host hands over.

use crate::intent::Target;
use crate::seqs::{lemma_filter_start, lemma_filter_step};
use crate::world::{lemma_values_empty, lemma_values_push, values, Creep, Structure};
use vstd::prelude::*;

verus! {

/// The first creep of `creeps` with the id `id`, if there is one.
pub open spec fn find_creep(creeps: Seq<Creep>, id: u64) -> Option<Creep>
    decreases creeps.len(),
{
    if creeps.len() == 0 {
        None
    } else if creeps[0].id == id {
        Some(creeps[0])
    } else {
        find_creep(creeps.skip(1), id)
    }
}

/// The first structure of `structures` with the id `id`, if there is one.
pub open spec fn find_structure(structures: Seq<Structure>, id: u64) -> Option<Structure>
    decreases structures.len(),
{
    if structures.len() == 0 {
        None
    } else if structures[0].id == id {
        Some(structures[0])
    } else {
        find_structure(structures.skip(1), id)
    }
}

/// The first structure of `structures` that belongs to the side `my`.
pub open spec fn first_owned(structures: Seq<Structure>, my: bool) -> Option<Structure>
    decreases structures.len(),
{
    if structures.len() == 0 {
        None
    } else if structures[0].owned_by(my) {
        Some(structures[0])
    } else {
        first_owned(structures.skip(1), my)
    }
}

/// The first creep of the list that is of the side `my`.
pub open spec fn first_of_side(creeps: Seq<Creep>, my: bool) -> Option<Creep>
    decreases creeps.len(),
{
    if creeps.len() == 0 {
        None
    } else if creeps[0].my == my {
        Some(creeps[0])
    } else {
        first_of_side(creeps.skip(1), my)
    }
}

/// The last creep of the list that is of the side `my`.
pub open spec fn last_of_side(creeps: Seq<Creep>, my: bool) -> Option<Creep>
    decreases creeps.len(),
{
    if creeps.len() == 0 {
        None
    } else if creeps.last().my == my {
        Some(creeps.last())
    } else {
        last_of_side(creeps.drop_last(), my)
    }
}

/// The behind-the-reference value of an optional creep.
pub open spec fn deref_opt(found: Option<&Creep>) -> Option<Creep> {
    match found {
        Some(c) => Some(*c),
        None => None,
    }
}

/// The creeps of one side, in the host's order.
pub fn get_creeps<'a>(creeps: &'a Vec<Creep>, my: bool) -> (side: Vec<&'a Creep>)
    ensures
        values(side@) == creeps@.filter(|c: Creep| c.my == my),
{
    let mut side: Vec<&'a Creep> = Vec::new();
    let mut i: usize = 0;
    proof {
        lemma_filter_start(creeps@, |c: Creep| c.my == my);
        lemma_values_empty();
    }
    while i < creeps.len()
        invariant
            i <= creeps.len(),
            values(side@) == creeps@.take(i as int).filter(|c: Creep| c.my == my),
        decreases creeps.len() - i,
    {
        proof {
            lemma_filter_step(creeps@, |c: Creep| c.my == my, i as int);
            lemma_values_push(side@, &creeps[i as int]);
        }
        if creeps[i].my == my {
            side.push(&creeps[i]);
        }
        i += 1;
    }
    proof {
        lemma_filter_start(creeps@, |c: Creep| c.my == my);
    }
    side
}

/// The first creep of the side `my`, if there is one.
pub fn find_first<'a>(creeps: &'a Vec<Creep>, my: bool) -> (found: Option<&'a Creep>)
    ensures
        deref_opt(found) == first_of_side(creeps@, my),
{
    let mut i: usize = 0;
    assert(creeps@.skip(0) == creeps@);
    while i < creeps.len()
        invariant
            i <= creeps.len(),
            first_of_side(creeps@, my) == first_of_side(creeps@.skip(i as int), my),
        decreases creeps.len() - i,
    {
        assert(creeps@.skip(i as int).skip(1) == creeps@.skip(i as int + 1));
        if creeps[i].my == my {
            return Some(&creeps[i]);
        }
        i += 1;
    }
    None
}

/// The last creep of the side `my`, if there is one.
pub fn find_last<'a>(creeps: &'a Vec<Creep>, my: bool) -> (found: Option<&'a Creep>)
    ensures
        deref_opt(found) == last_of_side(creeps@, my),
{
    let mut i: usize = creeps.len();
    assert(creeps@.take(creeps.len() as int) == creeps@);
    while i > 0
        invariant
            i <= creeps.len(),
            last_of_side(creeps@, my) == last_of_side(creeps@.take(i as int), my),
        decreases i,
    {
        assert(creeps@.take(i as int).drop_last() == creeps@.take(i as int - 1));
        i -= 1;
        if creeps[i].my == my {
            return Some(&creeps[i]);
        }
    }
    None
}

/// Finds the creep that the host names by `id`.
pub fn object_to_creep<'a>(creeps: &'a Vec<Creep>, id: u64) -> (found: Option<&'a Creep>)
    ensures
        deref_opt(found) == find_creep(creeps@, id),
{
    let mut i: usize = 0;
    assert(creeps@.skip(0) == creeps@);
    while i < creeps.len()
        invariant
            i <= creeps.len(),
            find_creep(creeps@, id) == find_creep(creeps@.skip(i as int), id),
        decreases creeps.len() - i,
    {
        assert(creeps@.skip(i as int).skip(1) == creeps@.skip(i as int + 1));
        if creeps[i].id == id {
            return Some(&creeps[i]);
        }
        i += 1;
    }
    None
}

/// Finds the container that the host names by `id`.
pub fn object_to_container(containers: &Vec<Structure>, id: u64) -> (found: Option<Structure>)
    ensures
        found == find_structure(containers@, id),
{
    let mut i: usize = 0;
    assert(containers@.skip(0) == containers@);
    while i < containers.len()
        invariant
            i <= containers.len(),
            find_structure(containers@, id) == find_structure(containers@.skip(i as int), id),
        decreases containers.len() - i,
    {
        assert(containers@.skip(i as int).skip(1) == containers@.skip(i as int + 1));
        if containers[i].id == id {
            return Some(containers[i]);
        }
        i += 1;
    }
    None
}

/// The creep of `other_creeps` that the host found closest by path, where
/// `closest` is the id that it answered with, if it found any.
pub fn get_closest_creep<'a>(other_creeps: &'a Vec<Creep>, closest: Option<u64>) -> (found: Option<
    &'a Creep,
>)
    ensures
        deref_opt(found) == match closest {
            Some(id) => find_creep(other_creeps@, id),
            None => None,
        },
{
    match closest {
        Some(id) => object_to_creep(other_creeps, id),
        None => None,
    }
}

/// The tile at `(x, y)` as something to move to.
pub fn create_position_object(x: u8, y: u8) -> (position: Target)
    ensures
        position == Target::Position(x, y),
{
    Target::Position(x, y)
}

/// The first spawn of the side `my`, if the host shows one this tick. A
/// spawn of which the host does not say whose it is counts as not mine.
pub fn get_spawn(spawns: &Vec<Structure>, my: bool) -> (spawn: Option<Structure>)
    ensures
        spawn == first_owned(spawns@, my),
{
    let mut i: usize = 0;
    assert(spawns@.skip(0) == spawns@);
    while i < spawns.len()
        invariant
            i <= spawns.len(),
            first_owned(spawns@, my) == first_owned(spawns@.skip(i as int), my),
        decreases spawns.len() - i,
    {
        assert(spawns@.skip(i as int).skip(1) == spawns@.skip(i as int + 1));
        let owned: bool = match spawns[i].my {
            Some(mine) => mine,
            None => false,
        };
        if owned == my {
            return Some(spawns[i]);
        }
        i += 1;
    }
    None
}

/// The containers that hold something (`with_resources`), or those that hold
/// nothing, in the host's order.
pub fn get_containers(containers: &Vec<Structure>, with_resources: bool) -> (chosen: Vec<Structure>)
    ensures
        chosen@ == containers@.filter(|c: Structure| c.has_resources() == with_resources),
{
    let mut chosen: Vec<Structure> = Vec::new();
    let mut i: usize = 0;
    proof {
        lemma_filter_start(containers@, |c: Structure| c.has_resources() == with_resources);
    }
    while i < containers.len()
        invariant
            i <= containers.len(),
            chosen@ == containers@.take(i as int).filter(
                |c: Structure| c.has_resources() == with_resources,
            ),
        decreases containers.len() - i,
    {
        proof {
            lemma_filter_step(
                containers@,
                |c: Structure| c.has_resources() == with_resources,
                i as int,
            );
        }
        if (containers[i].used_capacity > 0) == with_resources {
            chosen.push(containers[i]);
        }
        i += 1;
    }
    proof {
        lemma_filter_start(containers@, |c: Structure| c.has_resources() == with_resources);
    }
    chosen
}

} // verus!
