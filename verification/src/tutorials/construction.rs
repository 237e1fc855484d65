//! Build a tower: creeps draw energy from a container while their store is
//! empty and build while it is full.

use crate::intent::{act_or_approach, try_or_approach, Intent, Order};
use crate::text::str_eq;
use crate::world::{Creep, CreepView, Structure};
use vstd::prelude::*;

verus! {

/// The column of the tile on which the tower is built.
pub const TOWER_X: u8 = 50;

/// The row of the tile on which the tower is built.
pub const TOWER_Y: u8 = 55;

/// What a creep is doing, and on which object, by id.
#[derive(Clone, Copy, Debug, PartialEq, Eq, Structural)]
pub enum Role {
    /// Draw from the container.
    Collector(u64),
    /// Build at the construction site, if there is one.
    Builder(Option<u64>),
}

/// Why a creep could not be told what to do.
#[derive(Clone, Copy, Debug, PartialEq, Eq, Structural)]
pub enum RoleError {
    /// The creep's `role` field holds no string.
    NoTag,
    /// The string in the field is the tag of no role.
    UnknownRole,
    /// The host shows no container to collect from.
    NoContainer,
}

/// The decisions of one tick: the tile to found the tower on, on the first
/// tick, and for the `i`-th creep its orders, or why it has none.
pub struct Plan {
    pub tower_site: Option<(u8, u8)>,
    pub creeps: Vec<Result<Vec<Order>, RoleError>>,
}

/// The first id of a list, if it has any.
pub open spec fn first_id(ids: Seq<u64>) -> Option<u64> {
    if ids.len() > 0 {
        Some(ids[0])
    } else {
        None
    }
}

/// The first container of a list, if it has any.
pub open spec fn first_container(containers: Seq<Structure>) -> Option<Structure> {
    if containers.len() > 0 {
        Some(containers[0])
    } else {
        None
    }
}

impl Role {
    /// The tag under which the role is stored.
    pub open spec fn tag_spec(&self) -> Seq<char> {
        match self {
            Role::Collector(_) => "Collector"@,
            Role::Builder(_) => "Builder"@,
        }
    }

    /// The role that a creep turns to: collecting once its store is empty,
    /// building once it is full, and none in between. Collecting needs a
    /// container.
    pub open spec fn turn(creep: Creep, containers: Seq<Structure>, sites: Seq<u64>) -> Result<
        Option<Role>,
        RoleError,
    > {
        if creep.used_capacity == 0 {
            match first_container(containers) {
                Some(container) => Ok(Some(Role::Collector(container.id))),
                None => Err(RoleError::NoContainer),
            }
        } else if creep.free_capacity == 0 {
            Ok(Some(Role::Builder(first_id(sites))))
        } else {
            Ok(None)
        }
    }

    /// The role that a stored tag stands for, on the first container and the
    /// first construction site that the host shows.
    pub open spec fn of_tag(tag: Option<Seq<char>>, containers: Seq<Structure>, sites: Seq<u64>)
        -> Result<Role, RoleError> {
        match tag {
            None => Err(RoleError::NoTag),
            Some(text) => if text == "Collector"@ {
                match first_container(containers) {
                    Some(container) => Ok(Role::Collector(container.id)),
                    None => Err(RoleError::NoContainer),
                }
            } else if text == "Builder"@ {
                Ok(Role::Builder(first_id(sites)))
            } else {
                Err(RoleError::UnknownRole)
            },
        }
    }

    /// The role for a creep whose store is empty or full, on the first
    /// container and construction site of the lists; no role in between;
    /// and an error where a container is needed and the host shows none.
    pub fn new_role(creep: &Creep, containers: &Vec<Structure>, sites: &Vec<u64>) -> (role: Result<
        Option<Role>,
        RoleError,
    >)
        ensures
            role == Role::turn(*creep, containers@, sites@),
    {
        if creep.used_capacity == 0 {
            match get_container(containers) {
                Some(container) => Ok(Some(Role::Collector(container.id))),
                None => Err(RoleError::NoContainer),
            }
        } else if creep.free_capacity == 0 {
            Ok(Some(Role::Builder(get_construction_site(sites))))
        } else {
            Ok(None)
        }
    }

    /// The tag to store for the role.
    pub fn tag(&self) -> (tag: &'static str)
        ensures
            tag@ == self.tag_spec(),
    {
        match self {
            Role::Collector(_) => "Collector",
            Role::Builder(_) => "Builder",
        }
    }

    /// Reads the role of a creep off its tag.
    pub fn from(creep: &Creep, containers: &Vec<Structure>, sites: &Vec<u64>) -> (role: Result<
        Role,
        RoleError,
    >)
        ensures
            role == Role::of_tag(creep@.role, containers@, sites@),
    {
        match &creep.role {
            None => Err(RoleError::NoTag),
            Some(tag) => {
                if str_eq(tag.as_str(), "Collector") {
                    match get_container(containers) {
                        Some(container) => Ok(Role::Collector(container.id)),
                        None => Err(RoleError::NoContainer),
                    }
                } else if str_eq(tag.as_str(), "Builder") {
                    Ok(Role::Builder(get_construction_site(sites)))
                } else {
                    Err(RoleError::UnknownRole)
                }
            },
        }
    }
}

/// The two tags are different.
pub proof fn lemma_tags_differ()
    ensures
        "Collector"@ != "Builder"@,
{
    reveal_strlit("Collector");
    reveal_strlit("Builder");
    assert("Collector"@.len() == 9);
    assert("Builder"@.len() == 7);
}

/// A role that was stored on a creep is the role that is read back, as long
/// as the host shows the same first container and construction site.
pub proof fn lemma_role_round_trip(
    role: Role,
    creep: Creep,
    containers: Seq<Structure>,
    sites: Seq<u64>,
)
    requires
        creep@.role == Some(role.tag_spec()),
        role matches Role::Collector(id) ==> first_container(containers) matches Some(c) && c.id
            == id,
        role matches Role::Builder(site) ==> site == first_id(sites),
    ensures
        Role::of_tag(creep@.role, containers, sites) == Ok::<Role, RoleError>(role),
{
    lemma_tags_differ();
}

/// The tag that a creep has once it has turned to its new role, if it is to
/// turn to one.
pub open spec fn tag_after(creep: Creep, containers: Seq<Structure>, sites: Seq<u64>) -> Option<
    Seq<char>,
> {
    match Role::turn(creep, containers, sites) {
        Ok(Some(role)) => Some(role.tag_spec()),
        _ => creep@.role,
    }
}

/// What a creep does in a role: a collector draws from its container, a
/// builder builds at its site, either walking up where it is out of range;
/// a builder without a site rests.
pub open spec fn role_orders(role: Role) -> Seq<Order> {
    match role {
        Role::Collector(container) => act_or_approach(Intent::Withdraw(container), container),
        Role::Builder(Some(site)) => act_or_approach(Intent::Build(site), site),
        Role::Builder(None) => Seq::empty(),
    }
}

/// What a creep does on a tick: it turns to a new role if its store says so
/// and acts on the role it then has. A creep that cannot turn, or has no
/// readable role, gets no orders but the reason.
pub open spec fn creep_step(creep: Creep, containers: Seq<Structure>, sites: Seq<u64>) -> Result<
    Seq<Order>,
    RoleError,
> {
    match Role::turn(creep, containers, sites) {
        Err(e) => Err(e),
        Ok(_) => match Role::of_tag(tag_after(creep, containers, sites), containers, sites) {
            Ok(role) => Ok(role_orders(role)),
            Err(e) => Err(e),
        },
    }
}

/// The view of a list of orders, or the error in its place.
pub open spec fn step_view(step: Result<Vec<Order>, RoleError>) -> Result<Seq<Order>, RoleError> {
    match step {
        Ok(orders) => Ok(orders@),
        Err(e) => Err(e),
    }
}

/// One tick of the match, for all creeps that the host shows.
pub fn run(tick: u32, creeps: &mut Vec<Creep>, containers: &Vec<Structure>, sites: &Vec<u64>) -> (plan:
    Plan)
    ensures
        tick == 1 ==> plan.tower_site == Some((TOWER_X, TOWER_Y)),
        tick != 1 ==> plan.tower_site is None,
        final(creeps).len() == old(creeps).len(),
        plan.creeps.len() == old(creeps).len(),
        forall|k: int|
            0 <= k < old(creeps).len() ==> #[trigger] final(creeps)[k]@ == (CreepView {
                role: tag_after(old(creeps)[k], containers@, sites@),
                ..old(creeps)[k]@
            }),
        forall|k: int|
            0 <= k < old(creeps).len() ==> step_view(#[trigger] plan.creeps[k]) == creep_step(
                old(creeps)[k],
                containers@,
                sites@,
            ),
{
    let tower_site: Option<(u8, u8)> = if tick == 1 {
        Some((TOWER_X, TOWER_Y))
    } else {
        None
    };
    let mut steps: Vec<Result<Vec<Order>, RoleError>> = Vec::new();
    let mut i: usize = 0;
    while i < creeps.len()
        invariant
            i <= creeps.len(),
            creeps.len() == old(creeps).len(),
            steps.len() == i,
            forall|k: int|
                0 <= k < i ==> #[trigger] creeps[k]@ == (CreepView {
                    role: tag_after(old(creeps)[k], containers@, sites@),
                    ..old(creeps)[k]@
                }),
            forall|k: int| i <= k < creeps.len() ==> creeps[k] == old(creeps)[k],
            forall|k: int|
                0 <= k < i ==> step_view(#[trigger] steps[k]) == creep_step(
                    old(creeps)[k],
                    containers@,
                    sites@,
                ),
        decreases creeps.len() - i,
    {
        let step: Result<Vec<Order>, RoleError> = match Role::new_role(&creeps[i], containers, sites) {
            Err(e) => Err(e),
            Ok(turned) => {
                if let Some(new_role) = turned {
                    store_role_on_creep(&mut creeps[i], new_role);
                }
                match Role::from(&creeps[i], containers, sites) {
                    Ok(Role::Collector(container)) => Ok(
                        try_or_approach(Intent::Withdraw(container), container),
                    ),
                    Ok(Role::Builder(Some(site))) => Ok(try_or_approach(Intent::Build(site), site)),
                    Ok(Role::Builder(None)) => Ok(Vec::new()),
                    Err(e) => Err(e),
                }
            },
        };
        assert(creeps[i as int]@ == (CreepView {
            role: tag_after(old(creeps)[i as int], containers@, sites@),
            ..old(creeps)[i as int]@
        }));
        steps.push(step);
        i += 1;
    }
    Plan { tower_site, creeps: steps }
}

/// Stores the role on a creep. Nothing else about the creep changes.
pub fn store_role_on_creep(creep: &mut Creep, role: Role)
    ensures
        final(creep)@ == (CreepView { role: Some(role.tag_spec()), ..old(creep)@ }),
{
    creep.set_role(role.tag());
}

/// The first container that the host shows, if it shows any.
pub fn get_container(containers: &Vec<Structure>) -> (container: Option<Structure>)
    ensures
        container == first_container(containers@),
{
    if containers.len() == 0 {
        None
    } else {
        Some(containers[0])
    }
}

/// The first construction site that the host shows, if it shows any.
pub fn get_construction_site(construction_sites: &Vec<u64>) -> (site: Option<u64>)
    ensures
        site == first_id(construction_sites@),
{
    if construction_sites.len() == 0 {
        None
    } else {
        Some(construction_sites[0])
    }
}

} // verus!
