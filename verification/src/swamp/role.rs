//! The roles of the relay strategy, and what an enemy creep is taken to be.

use crate::text::str_eq;
use crate::world::{Creep, CreepView, Part};
use vstd::prelude::*;
use vstd::string::StringExecFns;

verus! {

/// The role of one of the player's creeps.
#[derive(Clone, Copy, Debug, PartialEq, Eq, Structural)]
pub enum Role {
    Unassigned,
    InitialCollector,
    Military,
}

/// Why the role of a creep could not be read.
#[derive(Clone, Copy, Debug, PartialEq, Eq, Structural)]
pub enum RoleError {
    /// The creep's `role` field holds no string.
    NoTag,
    /// The string in the field is the tag of no role.
    UnknownRole,
}

/// What an enemy creep is taken to be, going by its body.
#[derive(Clone, Copy, Debug, PartialEq, Eq, Structural)]
pub enum EnemyRole {
    Healer,
    Unknown,
    Collector,
    Melee,
    Ranger,
}

impl Role {
    /// The tag under which the role is stored.
    pub open spec fn tag_spec(&self) -> Seq<char> {
        match self {
            Role::Unassigned => "None"@,
            Role::InitialCollector => "InitialCollector"@,
            Role::Military => "Military"@,
        }
    }

    /// The role that a stored tag stands for, if it is the tag of a role.
    pub open spec fn of_tag(tag: Seq<char>) -> Option<Role> {
        if tag == "None"@ {
            Some(Role::Unassigned)
        } else if tag == "InitialCollector"@ {
            Some(Role::InitialCollector)
        } else if tag == "Military"@ {
            Some(Role::Military)
        } else {
            None
        }
    }

    /// What reading the role of a creep gives.
    pub open spec fn of_creep(creep: Creep) -> Result<Role, RoleError> {
        match creep.role {
            None => Err(RoleError::NoTag),
            Some(tag) => match Role::of_tag(tag@) {
                Some(role) => Ok(role),
                None => Err(RoleError::UnknownRole),
            },
        }
    }

    /// The tag to store for the role.
    pub fn to_string(&self) -> (tag: String)
        ensures
            tag@ == self.tag_spec(),
    {
        match self {
            Role::Unassigned => String::from_str("None"),
            Role::InitialCollector => String::from_str("InitialCollector"),
            Role::Military => String::from_str("Military"),
        }
    }

    /// Stores the role on a creep. Nothing else about the creep changes.
    pub fn add_to_creep(&self, creep: &mut Creep)
        ensures
            final(creep)@ == (CreepView { role: Some(self.tag_spec()), ..old(creep)@ }),
            Role::of_creep(*final(creep)) == Ok::<Role, RoleError>(*self),
    {
        let role_string = self.to_string();
        creep.set_role(role_string.as_str());
        proof {
            lemma_role_round_trip(*self);
        }
    }

    /// Reads the role of a creep: an error where the creep has no tag, or one
    /// that names no role, and the role of its tag otherwise.
    pub fn try_from(creep: &Creep) -> (role: Result<Role, RoleError>)
        ensures
            role == Role::of_creep(*creep),
    {
        match &creep.role {
            None => Err(RoleError::NoTag),
            Some(tag) => {
                let role_string = tag.as_str();
                if str_eq(role_string, "None") {
                    Ok(Role::Unassigned)
                } else if str_eq(role_string, "InitialCollector") {
                    Ok(Role::InitialCollector)
                } else if str_eq(role_string, "Military") {
                    Ok(Role::Military)
                } else {
                    Err(RoleError::UnknownRole)
                }
            },
        }
    }
}

impl Default for Role {
    fn default() -> (role: Role)
        ensures
            role == Role::Unassigned,
    {
        Role::Unassigned
    }
}

impl EnemyRole {
    /// The role that a body gives an enemy: that of its first part that
    /// carries, attacks, shoots or heals, and `Unknown` without such a part.
    pub open spec fn of_body(body: Seq<Part>) -> EnemyRole
        decreases body.len(),
    {
        if body.len() == 0 {
            EnemyRole::Unknown
        } else {
            match body[0] {
                Part::Carry => EnemyRole::Collector,
                Part::Attack => EnemyRole::Melee,
                Part::RangedAttack => EnemyRole::Ranger,
                Part::Heal => EnemyRole::Healer,
                _ => EnemyRole::of_body(body.skip(1)),
            }
        }
    }

    pub open spec fn of_creep(creep: Creep) -> EnemyRole {
        EnemyRole::of_body(creep.body@)
    }

    /// Classifies an enemy by its body. This succeeds for every creep.
    pub fn try_from(creep: &Creep) -> (role: Result<EnemyRole, RoleError>)
        ensures
            role == Ok::<EnemyRole, RoleError>(EnemyRole::of_creep(*creep)),
    {
        let mut i: usize = 0;
        assert(creep.body@.skip(0) == creep.body@);
        while i < creep.body.len()
            invariant
                i <= creep.body.len(),
                EnemyRole::of_body(creep.body@) == EnemyRole::of_body(creep.body@.skip(i as int)),
            decreases creep.body.len() - i,
        {
            assert(creep.body@.skip(i as int).skip(1) == creep.body@.skip(i as int + 1));
            match creep.body[i] {
                Part::Carry => {
                    return Ok(EnemyRole::Collector);
                },
                Part::Attack => {
                    return Ok(EnemyRole::Melee);
                },
                Part::RangedAttack => {
                    return Ok(EnemyRole::Ranger);
                },
                Part::Heal => {
                    return Ok(EnemyRole::Healer);
                },
                _ => {},
            }
            i += 1;
        }
        Ok(EnemyRole::Unknown)
    }
}

/// Storing a role and reading the tag back gives the same role, for every
/// role.
pub proof fn lemma_role_round_trip(role: Role)
    ensures
        Role::of_tag(role.tag_spec()) == Some(role),
{
    reveal_strlit("None");
    reveal_strlit("InitialCollector");
    reveal_strlit("Military");
    assert("None"@.len() == 4);
    assert("InitialCollector"@.len() == 16);
    assert("Military"@.len() == 8);
}

} // verus!
