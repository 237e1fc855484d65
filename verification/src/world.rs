//! The world as the host shows it at the start of a tick, held as plain
//! values.

use crate::text::opt_text;
use vstd::prelude::*;

verus! {

/// One ability part of a creep's body.
#[derive(Clone, Copy, Debug, PartialEq, Eq, Structural)]
pub enum Part {
    Move,
    Work,
    Carry,
    Attack,
    RangedAttack,
    Heal,
    Tough,
}

/// What the host charges for each kind of part.
#[derive(Clone, Copy, Debug, PartialEq, Eq, Structural)]
pub struct PartCosts {
    pub move_part: u32,
    pub work: u32,
    pub carry: u32,
    pub attack: u32,
    pub ranged_attack: u32,
    pub heal: u32,
    pub tough: u32,
}

impl PartCosts {
    pub open spec fn cost_spec(&self, part: Part) -> u32 {
        match part {
            Part::Move => self.move_part,
            Part::Work => self.work,
            Part::Carry => self.carry,
            Part::Attack => self.attack,
            Part::RangedAttack => self.ranged_attack,
            Part::Heal => self.heal,
            Part::Tough => self.tough,
        }
    }

    /// The price of one part.
    #[verifier::when_used_as_spec(cost_spec)]
    pub fn cost(&self, part: Part) -> (price: u32)
        ensures
            price == self.cost_spec(part),
    {
        match part {
            Part::Move => self.move_part,
            Part::Work => self.work,
            Part::Carry => self.carry,
            Part::Attack => self.attack,
            Part::RangedAttack => self.ranged_attack,
            Part::Heal => self.heal,
            Part::Tough => self.tough,
        }
    }
}

/// The price of a whole body: the sum of the prices of its parts.
pub open spec fn body_cost(body: Seq<Part>, costs: PartCosts) -> int
    decreases body.len(),
{
    if body.len() == 0 {
        0
    } else {
        body_cost(body.drop_last(), costs) + costs.cost_spec(body.last())
    }
}

/// A body costs at least as much as any of its prefixes.
pub proof fn lemma_body_cost_monotone(body: Seq<Part>, costs: PartCosts, n: int)
    requires
        0 <= n <= body.len(),
    ensures
        0 <= body_cost(body.take(n), costs) <= body_cost(body, costs),
    decreases body.len() - n,
{
    if n == body.len() {
        assert(body.take(n) == body);
        lemma_body_cost_nonnegative(body, costs);
    } else {
        lemma_body_cost_monotone(body, costs, n + 1);
        lemma_body_cost_nonnegative(body.take(n), costs);
        assert(body.take(n + 1).drop_last() == body.take(n));
        assert(body_cost(body.take(n + 1), costs) == body_cost(body.take(n), costs)
            + costs.cost_spec(body.take(n + 1).last()));
    }
}

/// No body has a negative price.
pub proof fn lemma_body_cost_nonnegative(body: Seq<Part>, costs: PartCosts)
    ensures
        0 <= body_cost(body, costs),
    decreases body.len(),
{
    if body.len() > 0 {
        lemma_body_cost_nonnegative(body.drop_last(), costs);
    }
}

/// Adds up the price of `body`.
pub fn cost_of_body(body: &Vec<Part>, costs: &PartCosts) -> (total: u32)
    requires
        body_cost(body@, *costs) <= u32::MAX,
    ensures
        total == body_cost(body@, *costs),
{
    let mut total: u32 = 0;
    let mut i: usize = 0;
    while i < body.len()
        invariant
            i <= body.len(),
            total == body_cost(body@.take(i as int), *costs),
            body_cost(body@, *costs) <= u32::MAX,
        decreases body.len() - i,
    {
        proof {
            lemma_body_cost_monotone(body@, *costs, i as int + 1);
            assert(body@.take(i as int + 1).drop_last() == body@.take(i as int));
        }
        total = total + costs.cost(body[i]);
        i += 1;
    }
    assert(body@.take(body.len() as int) == body@);
    total
}

/// Adds up the price of `body`, if the sum fits its counter.
pub fn checked_cost_of_body(body: &Vec<Part>, costs: &PartCosts) -> (total: Option<u32>)
    ensures
        body_cost(body@, *costs) > u32::MAX ==> total is None,
        body_cost(body@, *costs) <= u32::MAX ==> total == Some(body_cost(body@, *costs) as u32),
{
    let mut total: u32 = 0;
    let mut i: usize = 0;
    while i < body.len()
        invariant
            i <= body.len(),
            total == body_cost(body@.take(i as int), *costs),
        decreases body.len() - i,
    {
        proof {
            lemma_body_cost_monotone(body@, *costs, i as int + 1);
            assert(body@.take(i as int + 1).drop_last() == body@.take(i as int));
        }
        let price: u32 = costs.cost(body[i]);
        if price > u32::MAX - total {
            return None;
        }
        total = total + price;
        i += 1;
    }
    assert(body@.take(body.len() as int) == body@);
    Some(total)
}

/// A creep as the host reports it, with the custom fields that the bot
/// keeps on it from tick to tick.
#[derive(Clone, Debug)]
pub struct Creep {
    pub id: u64,
    pub x: u8,
    pub y: u8,
    pub my: bool,
    pub body: Vec<Part>,
    pub hits: u32,
    pub hits_max: u32,
    pub used_capacity: u32,
    pub free_capacity: u32,
    /// The `role` field, if the host holds a string there.
    pub role: Option<String>,
    /// The `state` field, if the host holds a string there.
    pub state: Option<String>,
    /// The `target_id` field, if the host holds a number there.
    pub target_id: Option<u64>,
}

/// What a [`Creep`] is, mathematically.
pub ghost struct CreepView {
    pub id: u64,
    pub x: u8,
    pub y: u8,
    pub my: bool,
    pub body: Seq<Part>,
    pub hits: u32,
    pub hits_max: u32,
    pub used_capacity: u32,
    pub free_capacity: u32,
    pub role: Option<Seq<char>>,
    pub state: Option<Seq<char>>,
    pub target_id: Option<u64>,
}

impl View for Creep {
    type V = CreepView;

    open spec fn view(&self) -> CreepView {
        CreepView {
            id: self.id,
            x: self.x,
            y: self.y,
            my: self.my,
            body: self.body@,
            hits: self.hits,
            hits_max: self.hits_max,
            used_capacity: self.used_capacity,
            free_capacity: self.free_capacity,
            role: opt_text(self.role),
            state: opt_text(self.state),
            target_id: self.target_id,
        }
    }
}

impl Creep {
    /// A creep is damaged when it has fewer hit points than it can have.
    pub open spec fn damaged(self) -> bool {
        self.hits < self.hits_max
    }

    /// A creep has energy when its store holds anything.
    pub open spec fn has_load(self) -> bool {
        self.used_capacity > 0
    }

    /// Writes `tag` into the creep's `role` field.
    pub fn set_role(&mut self, tag: &str)
        ensures
            final(self)@ == (CreepView { role: Some(tag@), ..old(self)@ }),
    {
        self.role = Some(tag.to_owned());
    }

    /// Writes `tag` into the creep's `state` field.
    pub fn set_state(&mut self, tag: &str)
        ensures
            final(self)@ == (CreepView { state: Some(tag@), ..old(self)@ }),
    {
        self.state = Some(tag.to_owned());
    }
}

/// The creeps behind a list of references.
pub open spec fn values(refs: Seq<&Creep>) -> Seq<Creep> {
    refs.map_values(|c: &Creep| *c)
}

/// Pushing a reference pushes the creep behind it.
pub proof fn lemma_values_push(refs: Seq<&Creep>, c: &Creep)
    ensures
        values(refs.push(c)) == values(refs).push(*c),
{
    assert(values(refs.push(c)) =~= values(refs).push(*c));
}

/// No references, no creeps.
pub proof fn lemma_values_empty()
    ensures
        values(Seq::<&Creep>::empty()) == Seq::<Creep>::empty(),
{
    assert(values(Seq::<&Creep>::empty()) =~= Seq::<Creep>::empty());
}

/// A spawn, container or tower as the host reports it. `my` is `None` where
/// the host does not say whose it is.
#[derive(Clone, Copy, Debug, PartialEq, Eq, Structural)]
pub struct Structure {
    pub id: u64,
    pub x: u8,
    pub y: u8,
    pub my: Option<bool>,
    pub used_capacity: u32,
}

impl Structure {
    /// Whether the structure belongs to the side `my`, counting an unowned
    /// one as not mine.
    pub open spec fn owned_by(self, my: bool) -> bool {
        (self.my == Some(true)) == my
    }

    pub open spec fn has_resources(self) -> bool {
        self.used_capacity > 0
    }
}

/// A flag as the host reports it.
#[derive(Clone, Copy, Debug, PartialEq, Eq, Structural)]
pub struct Flag {
    pub id: u64,
    pub x: u8,
    pub y: u8,
    pub my: Option<bool>,
}

impl Flag {
    pub open spec fn owned_by(self, my: bool) -> bool {
        (self.my == Some(true)) == my
    }
}

/// A game object together with its range from some fixed point, as the host
/// measured it.
#[derive(Clone, Copy, Debug, PartialEq, Eq, Structural)]
pub struct Ranged {
    pub id: u64,
    pub range: u8,
}

/// What the host found closest by path to one creep, as ids. `None` where
/// it found nothing, or was not asked.
#[derive(Clone, Copy, Debug, PartialEq, Eq, Structural)]
pub struct Nearest {
    /// Among the enemy's creeps.
    pub enemy: Option<u64>,
    /// Among the player's damaged creeps.
    pub hurt: Option<u64>,
    /// Among the containers that hold resources.
    pub container: Option<u64>,
    /// Among the body parts lying on the ground.
    pub body_part: Option<u64>,
    /// Among the flags.
    pub flag: Option<u64>,
}

impl Nearest {
    pub open spec fn nothing_spec() -> Nearest {
        Nearest { enemy: None, hurt: None, container: None, body_part: None, flag: None }
    }

    /// The answers of a host that found nothing.
    #[verifier::when_used_as_spec(nothing_spec)]
    pub fn nothing() -> (nearest: Nearest)
        ensures
            nearest == Nearest::nothing_spec(),
    {
        Nearest { enemy: None, hurt: None, container: None, body_part: None, flag: None }
    }
}

/// The host's answers for the `i`-th creep. Where the list is too short the
/// host is taken to have found nothing.
pub open spec fn nearest_at(nearest: Seq<Nearest>, i: int) -> Nearest {
    if 0 <= i < nearest.len() {
        nearest[i]
    } else {
        Nearest::nothing_spec()
    }
}

/// Looks up the host's answers for the `i`-th creep.
pub fn nearest_for(nearest: &Vec<Nearest>, i: usize) -> (found: Nearest)
    ensures
        found == nearest_at(nearest@, i as int),
{
    if i < nearest.len() {
        nearest[i]
    } else {
        Nearest::nothing()
    }
}

} // verus!
