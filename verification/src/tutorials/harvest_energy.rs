//! Harvest energy from a source and deliver it to the spawn, turning round
//! whenever the store is full or empty.

use crate::intent::{act_or_approach, try_or_approach, Intent, Order};
use crate::text::str_eq;
use crate::world::{Creep, CreepView, Structure};
use vstd::prelude::*;

verus! {

/// What the creep is doing.
#[derive(Clone, Copy, Debug, PartialEq, Eq, Structural)]
pub enum Role {
    Harvest,
    Deliver,
    Unassigned,
}

/// The creep, the spawn and the source of the arena.
pub struct Data {
    pub creep: Creep,
    pub spawn: Structure,
    /// The id of the source.
    pub energy_source: u64,
}

impl Role {
    /// The tag under which the role is stored.
    pub open spec fn tag_spec(&self) -> Seq<char> {
        match self {
            Role::Harvest => "harvest"@,
            Role::Deliver => "deliver"@,
            Role::Unassigned => "none"@,
        }
    }

    /// The role that a stored tag stands for. Whatever is no tag of a role
    /// stands for `Unassigned`.
    pub open spec fn of_tag(tag: Seq<char>) -> Role {
        if tag == "harvest"@ {
            Role::Harvest
        } else if tag == "deliver"@ {
            Role::Deliver
        } else {
            Role::Unassigned
        }
    }

    /// The role of a creep: that of its tag, and `Unassigned` where its
    /// `role` field holds no string.
    pub open spec fn of_creep(creep: Creep) -> Role {
        match creep.role {
            Some(tag) => Role::of_tag(tag@),
            None => Role::Unassigned,
        }
    }

    /// The role to change to, if the creep is to change: a harvester whose
    /// store is full delivers, a deliverer whose store is empty harvests,
    /// and a creep without a role harvests.
    pub open spec fn change(creep: Creep) -> Option<Role> {
        match Role::of_creep(creep) {
            Role::Harvest => if creep.free_capacity == 0 {
                Some(Role::Deliver)
            } else {
                None
            },
            Role::Deliver => if creep.used_capacity == 0 {
                Some(Role::Harvest)
            } else {
                None
            },
            Role::Unassigned => Some(Role::Harvest),
        }
    }

    /// The role that the creep acts on after any change.
    pub open spec fn after_change(creep: Creep) -> Role {
        match Role::change(creep) {
            Some(role) => role,
            None => Role::of_creep(creep),
        }
    }

    /// The tag to store for the role.
    pub fn tag(&self) -> (tag: &'static str)
        ensures
            tag@ == self.tag_spec(),
    {
        match self {
            Role::Harvest => "harvest",
            Role::Deliver => "deliver",
            Role::Unassigned => "none",
        }
    }

    /// Reads a stored tag.
    pub fn from(role_string: &str) -> (role: Role)
        ensures
            role == Role::of_tag(role_string@),
    {
        if str_eq(role_string, "harvest") {
            Role::Harvest
        } else if str_eq(role_string, "deliver") {
            Role::Deliver
        } else {
            Role::Unassigned
        }
    }
}

/// Storing a role and reading the tag back gives the same role, for every
/// role.
pub proof fn lemma_role_round_trip(role: Role)
    ensures
        Role::of_tag(role.tag_spec()) == role,
{
    reveal_strlit("harvest");
    reveal_strlit("deliver");
    reveal_strlit("none");
    assert("harvest"@.len() == 7);
    assert("deliver"@.len() == 7);
    assert("none"@.len() == 4);
    assert("harvest"@[0] == 'h');
    assert("deliver"@[0] == 'd');
}

/// What the creep does in a role: a harvester harvests the source, a
/// deliverer hands its load to the spawn, either walking up where it is out
/// of range.
pub open spec fn role_orders(role: Role, spawn: Structure, energy_source: u64) -> Seq<Order> {
    match role {
        Role::Harvest => act_or_approach(Intent::Harvest(energy_source), energy_source),
        Role::Deliver => act_or_approach(Intent::Transfer(spawn.id), spawn.id),
        Role::Unassigned => Seq::empty(),
    }
}

impl Data {
    /// Takes the first creep, the first spawn and the first source that the
    /// host shows. There is no result while any of them is missing.
    pub fn init(creeps: Vec<Creep>, spawns: &Vec<Structure>, energy_sources: &Vec<u64>) -> (data:
        Option<Data>)
        ensures
            (creeps.len() == 0 || spawns.len() == 0 || energy_sources.len() == 0) ==> data is None,
            (creeps.len() > 0 && spawns.len() > 0 && energy_sources.len() > 0) ==> (
            data matches Some(d) && d.creep == creeps[0] && d.spawn == spawns[0] && d.energy_source
                == energy_sources[0]),
    {
        if creeps.len() == 0 || spawns.len() == 0 || energy_sources.len() == 0 {
            return None;
        }
        let mut creeps = creeps;
        let creep = creeps.remove(0);
        Some(Data { creep, spawn: spawns[0], energy_source: energy_sources[0] })
    }

    /// Changes the role of the creep where it is to change.
    pub fn assign_role(&mut self)
        ensures
            final(self).spawn == old(self).spawn,
            final(self).energy_source == old(self).energy_source,
            Role::of_creep(final(self).creep) == Role::after_change(old(self).creep),
            match Role::change(old(self).creep) {
                Some(role) => final(self).creep@ == (CreepView {
                    role: Some(role.tag_spec()),
                    ..old(self).creep@
                }),
                None => final(self).creep == old(self).creep,
            },
    {
        if let Some(new_role) = self.change_role() {
            assign_role_to_creep(&mut self.creep, new_role);
        }
    }

    /// The role to change to, if the creep is to change.
    pub fn change_role(&self) -> (role: Option<Role>)
        ensures
            role == Role::change(self.creep),
    {
        match get_role_from_creep(&self.creep) {
            Role::Harvest => {
                if self.creep.free_capacity == 0 {
                    Some(Role::Deliver)
                } else {
                    None
                }
            },
            Role::Deliver => {
                if self.creep.used_capacity == 0 {
                    Some(Role::Harvest)
                } else {
                    None
                }
            },
            Role::Unassigned => Some(Role::Harvest),
        }
    }
}

/// One tick: the creep changes its role where it is to change, and acts on
/// the role it then has.
pub fn run(data: &mut Data) -> (orders: Vec<Order>)
    ensures
        final(data).spawn == old(data).spawn,
        final(data).energy_source == old(data).energy_source,
        match Role::change(old(data).creep) {
            Some(role) => final(data).creep@ == (CreepView {
                role: Some(role.tag_spec()),
                ..old(data).creep@
            }),
            None => final(data).creep == old(data).creep,
        },
        orders@ == role_orders(
            Role::after_change(old(data).creep),
            old(data).spawn,
            old(data).energy_source,
        ),
{
    data.assign_role();
    match get_role_from_creep(&data.creep) {
        Role::Harvest => try_or_approach(Intent::Harvest(data.energy_source), data.energy_source),
        Role::Deliver => try_or_approach(Intent::Transfer(data.spawn.id), data.spawn.id),
        Role::Unassigned => Vec::new(),
    }
}

/// Reads the role of a creep. This never fails: a creep without a readable
/// tag has the role `Unassigned`.
pub fn get_role_from_creep(creep: &Creep) -> (role: Role)
    ensures
        role == Role::of_creep(*creep),
{
    match &creep.role {
        Some(role_string) => Role::from(role_string.as_str()),
        None => Role::Unassigned,
    }
}

/// Stores the role on a creep. Nothing else about the creep changes.
pub fn assign_role_to_creep(creep: &mut Creep, role: Role)
    ensures
        final(creep)@ == (CreepView { role: Some(role.tag_spec()), ..old(creep)@ }),
        Role::of_creep(*final(creep)) == role,
{
    creep.set_role(role.tag());
    proof {
        lemma_role_round_trip(role);
    }
}

/// The creep turns round only at the ends: with a store that is neither
/// full nor empty a harvester goes on harvesting and a deliverer goes on
/// delivering.
pub proof fn lemma_role_is_kept_between_the_ends(creep: Creep)
    requires
        creep.used_capacity > 0,
        creep.free_capacity > 0,
        Role::of_creep(creep) != Role::Unassigned,
    ensures
        Role::change(creep) is None,
        Role::after_change(creep) == Role::of_creep(creep),
{
}

} // verus!
