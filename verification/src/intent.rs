//! What the bot asks of the host: intents, and orders that say when an
//! intent is due.

use vstd::prelude::*;

verus! {

/// Where a creep is told to go: a game object, by its id, or a tile.
#[derive(Clone, Copy, Debug, PartialEq, Eq, Structural)]
pub enum Target {
    Object(u64),
    Position(u8, u8),
}

/// One action request for one creep or tower. Objects are named by id.
#[derive(Clone, Copy, Debug, PartialEq, Eq, Structural)]
pub enum Intent {
    MoveTo(Target),
    Attack(u64),
    RangedAttack(u64),
    RangedMassAttack,
    Heal(u64),
    RangedHeal(u64),
    Withdraw(u64),
    Transfer(u64),
    Harvest(u64),
    Build(u64),
}

/// How the host answered an intent.
#[derive(Clone, Copy, Debug, PartialEq, Eq, Structural)]
pub enum ReturnCode {
    Success,
    NotInRange,
    NotEnoughResources,
    Other,
}

/// An intent together with the condition under which it is issued.
///
/// The host is asked the orders of a plan one after the other. An
/// `IfNotInRange` order corrects the nearest `Always` order before it: it is
/// issued only if the host rejected that one as not in range.
#[derive(Clone, Copy, Debug, PartialEq, Eq, Structural)]
pub enum Order {
    Always(Intent),
    IfNotInRange(Intent),
}

/// The orders for one creep or tower, named by its id.
#[derive(Debug)]
pub struct Assignment {
    pub actor: u64,
    pub orders: Vec<Order>,
}

impl Order {
    pub open spec fn intent_spec(&self) -> Intent {
        match *self {
            Order::Always(intent) => intent,
            Order::IfNotInRange(intent) => intent,
        }
    }

    /// Whether the order is issued when `last` is the host's answer to the
    /// nearest `Always` order before it.
    pub open spec fn due(self, last: Option<ReturnCode>) -> bool {
        match self {
            Order::Always(_) => true,
            Order::IfNotInRange(_) => last == Some(ReturnCode::NotInRange),
        }
    }

    /// The answer that the orders after this one go by, once the host has
    /// answered this one with `status`.
    pub open spec fn carried(self, last: Option<ReturnCode>, status: ReturnCode) -> Option<
        ReturnCode,
    > {
        match self {
            Order::Always(_) => Some(status),
            Order::IfNotInRange(_) => last,
        }
    }

    /// The intent that the order carries.
    #[verifier::when_used_as_spec(intent_spec)]
    pub fn intent(&self) -> (intent: Intent)
        ensures
            intent == self.intent_spec(),
    {
        match self {
            Order::Always(intent) => *intent,
            Order::IfNotInRange(intent) => *intent,
        }
    }

    /// Decides whether to issue the order.
    pub fn is_due(&self, last: Option<ReturnCode>) -> (due: bool)
        ensures
            due == self.due(last),
    {
        match self {
            Order::Always(_) => true,
            Order::IfNotInRange(_) => match last {
                Some(ReturnCode::NotInRange) => true,
                _ => false,
            },
        }
    }

    /// Takes the host's answer to an order that was issued.
    pub fn settle(&self, last: Option<ReturnCode>, status: ReturnCode) -> (next: Option<ReturnCode>)
        ensures
            next == self.carried(last, status),
    {
        match self {
            Order::Always(_) => Some(status),
            Order::IfNotInRange(_) => last,
        }
    }
}

/// The intents that reach the host when it answers the `i`-th order, if that
/// one is issued, with `answers[i]`.
pub open spec fn issued(orders: Seq<Order>, answers: Seq<ReturnCode>, last: Option<ReturnCode>) -> Seq<
    Intent,
>
    recommends
        answers.len() == orders.len(),
    decreases orders.len(),
{
    if orders.len() == 0 {
        Seq::empty()
    } else if orders[0].due(last) {
        seq![orders[0].intent_spec()] + issued(
            orders.skip(1),
            answers.skip(1),
            orders[0].carried(last, answers[0]),
        )
    } else {
        issued(orders.skip(1), answers.skip(1), last)
    }
}

/// Try the action on the object; walk to it where the host says it is out
/// of range.
pub open spec fn act_or_approach(action: Intent, object: u64) -> Seq<Order> {
    seq![Order::Always(action), Order::IfNotInRange(Intent::MoveTo(Target::Object(object)))]
}

/// The two orders that try `action` on `object` and close in on it.
pub fn try_or_approach(action: Intent, object: u64) -> (orders: Vec<Order>)
    ensures
        orders@ == act_or_approach(action, object),
{
    vec![Order::Always(action), Order::IfNotInRange(Intent::MoveTo(Target::Object(object)))]
}

/// Where the host accepts the action, or turns it down for any reason but
/// the range, no move is issued; where it says that the object is out of
/// range, the move towards the object follows.
pub proof fn lemma_approach_only_when_out_of_range(
    action: Intent,
    object: u64,
    status: ReturnCode,
    later: ReturnCode,
)
    ensures
        issued(act_or_approach(action, object), seq![status, later], None) == if status
            == ReturnCode::NotInRange {
            seq![action, Intent::MoveTo(Target::Object(object))]
        } else {
            seq![action]
        },
{
    let orders = act_or_approach(action, object);
    let answers = seq![status, later];
    reveal_with_fuel(issued, 3);
    assert(orders.skip(1) =~= seq![Order::IfNotInRange(Intent::MoveTo(Target::Object(object)))]);
    assert(orders.skip(1).skip(1) =~= Seq::<Order>::empty());
    assert(answers.skip(1) =~= seq![later]);
    assert(issued(orders, answers, None) =~= if status == ReturnCode::NotInRange {
        seq![action, Intent::MoveTo(Target::Object(object))]
    } else {
        seq![action]
    });
}

/// Runs a plan against given answers, one answer for each order: the intents
/// that the host receives, in order. There is no result where the two lists
/// differ in length.
pub fn issue(orders: &Vec<Order>, answers: &Vec<ReturnCode>) -> (sent: Option<Vec<Intent>>)
    ensures
        answers.len() != orders.len() ==> sent is None,
        answers.len() == orders.len() ==> (sent matches Some(list) && list@ == issued(
            orders@,
            answers@,
            None,
        )),
{
    if answers.len() != orders.len() {
        return None;
    }
    let mut sent: Vec<Intent> = Vec::new();
    let mut last: Option<ReturnCode> = None;
    let mut i: usize = 0;
    proof {
        assert(orders@.skip(0) == orders@);
        assert(answers@.skip(0) == answers@);
        assert(sent@ + issued(orders@, answers@, None) == issued(orders@, answers@, None));
    }
    while i < orders.len()
        invariant
            i <= orders.len(),
            answers.len() == orders.len(),
            issued(orders@, answers@, None) == sent@ + issued(
                orders@.skip(i as int),
                answers@.skip(i as int),
                last,
            ),
        decreases orders.len() - i,
    {
        proof {
            assert(orders@.skip(i as int).skip(1) == orders@.skip(i as int + 1));
            assert(answers@.skip(i as int).skip(1) == answers@.skip(i as int + 1));
        }
        let ghost before = sent@;
        let order: Order = orders[i];
        if order.is_due(last) {
            sent.push(order.intent());
            last = order.settle(last, answers[i]);
            assert(before + (seq![order.intent_spec()] + issued(
                orders@.skip(i as int + 1),
                answers@.skip(i as int + 1),
                last,
            )) == sent@ + issued(orders@.skip(i as int + 1), answers@.skip(i as int + 1), last));
        }
        i += 1;
    }
    assert(sent@ + Seq::<Intent>::empty() == sent@);
    Some(sent)
}

} // verus!
