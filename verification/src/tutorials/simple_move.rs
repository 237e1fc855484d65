//! Walk to a flag.

use crate::intent::{Intent, Order, Target};
use crate::world::{Creep, Flag};
use vstd::prelude::*;

verus! {

/// The first creep walks to the first flag. There is nothing to do while
/// the host shows no creep or no flag.
pub fn run(creeps: &Vec<Creep>, flags: &Vec<Flag>) -> (step: Option<(u64, Order)>)
    ensures
        (creeps.len() == 0 || flags.len() == 0) ==> step is None,
        (creeps.len() > 0 && flags.len() > 0) ==> step == Some(
            (creeps[0].id, Order::Always(Intent::MoveTo(Target::Object(flags[0].id)))),
        ),
{
    if creeps.len() == 0 || flags.len() == 0 {
        None
    } else {
        Some((creeps[0].id, Order::Always(Intent::MoveTo(Target::Object(flags[0].id)))))
    }
}

} // verus!
