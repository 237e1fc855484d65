//! The role of one of the player's own creeps, kept as a string tag in the
//! creep's `role` field so that it outlives the tick.

use crate::text::str_eq;
use crate::world::{Creep, CreepView, Part};
use vstd::prelude::*;

verus! {

/// The roles that a creep can be given. `Unknown` is the role of a creep
/// whose tag cannot be read.
#[derive(Clone, Copy, Debug, PartialEq, Eq, Structural)]
pub enum Role {
    Defender,
    Attacker,
    Healer,
    Collector,
    Unknown,
}

impl Role {
    /// The tag under which the role is stored.
    pub open spec fn tag_spec(&self) -> Seq<char> {
        match self {
            Role::Defender => "defender"@,
            Role::Attacker => "attacker"@,
            Role::Healer => "healer"@,
            Role::Collector => "collector"@,
            Role::Unknown => "unknown"@,
        }
    }

    /// The role that a stored tag stands for. Whatever is no tag of a role
    /// stands for `Unknown`.
    pub open spec fn of_tag(tag: Seq<char>) -> Role {
        if tag == "defender"@ {
            Role::Defender
        } else if tag == "attacker"@ {
            Role::Attacker
        } else if tag == "healer"@ {
            Role::Healer
        } else if tag == "collector"@ {
            Role::Collector
        } else {
            Role::Unknown
        }
    }

    /// The role of a creep: that of its tag, and `Unknown` where its `role`
    /// field holds no string.
    pub open spec fn of_creep(creep: Creep) -> Role {
        match creep.role {
            Some(tag) => Role::of_tag(tag@),
            None => Role::Unknown,
        }
    }

    /// The body that a creep of this role is spawned with.
    pub open spec fn body_spec(&self) -> Seq<Part> {
        match self {
            Role::Defender => seq![
                Part::Attack,
                Part::Attack,
                Part::Attack,
                Part::RangedAttack,
                Part::RangedAttack,
                Part::RangedAttack,
                Part::Move,
                Part::Move,
                Part::Move,
            ],
            Role::Attacker => seq![
                Part::Attack,
                Part::Attack,
                Part::RangedAttack,
                Part::RangedAttack,
                Part::Move,
                Part::Move,
                Part::Move,
                Part::Move,
                Part::Move,
                Part::Move,
                Part::Move,
                Part::Move,
                Part::Move,
            ],
            Role::Healer => seq![
                Part::Heal,
                Part::Heal,
                Part::Move,
                Part::Move,
                Part::Move,
                Part::Move,
                Part::Move,
                Part::Move,
                Part::Move,
            ],
            Role::Collector => seq![Part::Carry, Part::Move],
            Role::Unknown => Seq::empty(),
        }
    }

    /// The tag to store for the role.
    pub fn tag(&self) -> (tag: &'static str)
        ensures
            tag@ == self.tag_spec(),
    {
        match self {
            Role::Defender => "defender",
            Role::Attacker => "attacker",
            Role::Healer => "healer",
            Role::Collector => "collector",
            Role::Unknown => "unknown",
        }
    }

    /// Reads a stored tag.
    pub fn from_tag(tag: &str) -> (role: Role)
        ensures
            role == Role::of_tag(tag@),
    {
        if str_eq(tag, "defender") {
            Role::Defender
        } else if str_eq(tag, "attacker") {
            Role::Attacker
        } else if str_eq(tag, "healer") {
            Role::Healer
        } else if str_eq(tag, "collector") {
            Role::Collector
        } else {
            Role::Unknown
        }
    }

    /// Reads the role of a creep. This never fails: a creep without a
    /// readable tag has the role `Unknown`.
    pub fn from(creep: &Creep) -> (role: Role)
        ensures
            role == Role::of_creep(*creep),
    {
        match &creep.role {
            Some(tag) => Role::from_tag(tag.as_str()),
            None => Role::Unknown,
        }
    }

    /// Stores the role on a creep. Nothing else about the creep changes.
    pub fn attach_to_creep(self, creep: &mut Creep)
        ensures
            final(creep)@ == (CreepView { role: Some(self.tag_spec()), ..old(creep)@ }),
            Role::of_creep(*final(creep)) == self,
    {
        creep.set_role(self.tag());
        proof {
            lemma_role_round_trip(self);
        }
    }

    /// The body to ask the spawn for. There is none for `Unknown`.
    pub fn create_body_for_role(&self) -> (body: Option<Vec<Part>>)
        ensures
            *self == Role::Unknown ==> body is None,
            *self != Role::Unknown ==> (body matches Some(parts) && parts@ == self.body_spec()),
    {
        match self {
            Role::Defender => Some(
                vec![
                    Part::Attack,
                    Part::Attack,
                    Part::Attack,
                    Part::RangedAttack,
                    Part::RangedAttack,
                    Part::RangedAttack,
                    Part::Move,
                    Part::Move,
                    Part::Move,
                ],
            ),
            Role::Attacker => Some(
                vec![
                    Part::Attack,
                    Part::Attack,
                    Part::RangedAttack,
                    Part::RangedAttack,
                    Part::Move,
                    Part::Move,
                    Part::Move,
                    Part::Move,
                    Part::Move,
                    Part::Move,
                    Part::Move,
                    Part::Move,
                    Part::Move,
                ],
            ),
            Role::Healer => Some(
                vec![
                    Part::Heal,
                    Part::Heal,
                    Part::Move,
                    Part::Move,
                    Part::Move,
                    Part::Move,
                    Part::Move,
                    Part::Move,
                    Part::Move,
                ],
            ),
            Role::Collector => Some(vec![Part::Carry, Part::Move]),
            Role::Unknown => None,
        }
    }
}

/// Storing a role and reading the tag back gives the same role, for every
/// role.
pub proof fn lemma_role_round_trip(role: Role)
    ensures
        Role::of_tag(role.tag_spec()) == role,
{
    reveal_strlit("defender");
    reveal_strlit("attacker");
    reveal_strlit("healer");
    reveal_strlit("collector");
    reveal_strlit("unknown");
    assert("defender"@.len() == 8);
    assert("attacker"@.len() == 8);
    assert("healer"@.len() == 6);
    assert("collector"@.len() == 9);
    assert("unknown"@.len() == 7);
    assert("defender"@[0] == 'd');
    assert("attacker"@[0] == 'a');
}

/// A creep whose `role` field was set to the tag of `role`, on this tick or
/// an earlier one, reads as `role`, whatever else changed about the creep.
pub proof fn lemma_role_persists(role: Role, creep: Creep)
    requires
        creep@.role == Some(role.tag_spec()),
    ensures
        Role::of_creep(creep) == role,
{
    lemma_role_round_trip(role);
}

/// Storing a role is idempotent: on a creep that carries the tag already
/// it changes nothing, so a tag may be written again on every tick.
pub proof fn lemma_attach_is_idempotent(role: Role, before: CreepView)
    ensures
        (CreepView {
            role: Some(role.tag_spec()),
            ..(CreepView { role: Some(role.tag_spec()), ..before })
        }) == (CreepView { role: Some(role.tag_spec()), ..before }),
{
}

} // verus!
