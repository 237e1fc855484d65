//! Walk to the nearest flag.

use crate::intent::{Intent, Order, Target};
use crate::world::{nearest_at, nearest_for, Creep, Flag, Nearest};
use vstd::prelude::*;

verus! {

/// What the host shows of the arena.
pub struct Data {
    pub creeps: Vec<Creep>,
    pub flags: Vec<Flag>,
}

/// A creep walks to the flag that the host found nearest by path, and rests
/// where it found none.
pub open spec fn flag_orders(nearest: Nearest) -> Seq<Order> {
    match nearest.flag {
        Some(flag) => seq![Order::Always(Intent::MoveTo(Target::Object(flag)))],
        None => Seq::empty(),
    }
}

impl Data {
    /// Takes the host's lists as they are.
    pub fn init(creeps: Vec<Creep>, flags: Vec<Flag>) -> (data: Data)
        ensures
            data.creeps == creeps,
            data.flags == flags,
    {
        Data { creeps, flags }
    }

    /// The ids of the flags, for the host to search among.
    pub fn flags_to_array(&self) -> (ids: Vec<u64>)
        ensures
            ids@ == self.flags@.map_values(|f: Flag| f.id),
    {
        let mut ids: Vec<u64> = Vec::new();
        let mut i: usize = 0;
        while i < self.flags.len()
            invariant
                i <= self.flags.len(),
                ids@ == self.flags@.take(i as int).map_values(|f: Flag| f.id),
            decreases self.flags.len() - i,
        {
            ids.push(self.flags[i].id);
            assert(ids@ =~= self.flags@.take(i as int + 1).map_values(|f: Flag| f.id));
            i += 1;
        }
        assert(self.flags@.take(self.flags.len() as int) =~= self.flags@);
        ids
    }
}

/// The orders of one tick, `orders[i]` for the `i`-th creep. `nearest[i]`
/// holds what the host found nearest to that creep.
pub fn run(data: &Data, nearest: &Vec<Nearest>) -> (orders: Vec<Vec<Order>>)
    ensures
        orders.len() == data.creeps.len(),
        forall|k: int|
            0 <= k < data.creeps.len() ==> (#[trigger] orders[k])@ == flag_orders(
                nearest_at(nearest@, k),
            ),
{
    let mut orders: Vec<Vec<Order>> = Vec::new();
    let mut i: usize = 0;
    while i < data.creeps.len()
        invariant
            i <= data.creeps.len(),
            orders.len() == i,
            forall|k: int|
                0 <= k < i ==> (#[trigger] orders[k])@ == flag_orders(nearest_at(nearest@, k)),
        decreases data.creeps.len() - i,
    {
        let found: Nearest = nearest_for(nearest, i);
        match found.flag {
            Some(flag) => orders.push(vec![Order::Always(Intent::MoveTo(Target::Object(flag)))]),
            None => orders.push(Vec::new()),
        }
        i += 1;
    }
    orders
}

} // verus!
