//! Chance. Nothing is known of a draw but the set it comes from.

use rand::seq::IteratorRandom;
use rand::Rng;
use vstd::prelude::*;

verus! {

/// `Rng::gen_range` on the thread's generator, over `low..high`: some number
/// of that range. The call panics on an empty range, which the precondition
/// rules out.
#[verifier::external_body]
pub(crate) fn roll_in_range(low: u32, high: u32) -> (roll: u32)
    requires
        low < high,
    ensures
        low <= roll < high,
{
    rand::thread_rng().gen_range(low..high)
}

/// `IteratorRandom::choose_multiple` on the thread's generator, over the
/// numbers below `count`: `amount` of them, or all if there are fewer, each
/// at most once, in no particular order. The call sets aside room for
/// `amount` numbers and walks all of `count`, so both are kept small.
#[verifier::external_body]
pub(crate) fn pick_distinct(count: usize, amount: usize) -> (picks: Vec<usize>)
    requires
        count <= 65_536,
        amount <= 65_536,
    ensures
        picks.len() == if amount <= count { amount } else { count },
        forall|i: int| 0 <= i < picks.len() ==> picks[i] < count,
        forall|i: int, j: int| 0 <= i < j < picks.len() ==> picks[i] != picks[j],
{
    (0..count).choose_multiple(&mut rand::thread_rng(), amount)
}

} // verus!
