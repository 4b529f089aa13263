//! The random draws, made by the `rand` crate on the thread's generator.
//!
//! Nothing here is proved: each contract states what `rand` documents of
//! every outcome, and the functions that call these are verified against it.
use vstd::prelude::*;
use crate::generation::Building;
use rand::seq::SliceRandom;
use rand::Rng;

verus! {

/// `picked` holds items of `items`, taken at the positions `from`, no
/// position twice.
pub open spec fn drawn_from(items: Seq<Building>, picked: Seq<Building>, from: Seq<int>) -> bool {
    &&& from.len() == picked.len()
    &&& forall|k: int|
        0 <= k < from.len() ==> 0 <= #[trigger] from[k] < items.len() && picked[k] == items[from[k]]
    &&& forall|k: int, l: int|
        0 <= k < from.len() && 0 <= l < from.len() && k != l ==> #[trigger] from[k]
            != #[trigger] from[l]
}

/// `Rng::gen_range` on `low..high`: some number of that range. Which one is
/// not said. An empty range makes `rand` panic, so it is left out.
#[verifier::external_body]
pub(crate) fn gen_range(low: usize, high: usize) -> (drawn: usize)
    requires
        low < high,
    ensures
        low <= drawn < high,
{
    rand::thread_rng().gen_range(low..high)
}

/// `SliceRandom::choose`: `None` for an empty list, else a copy of one of its
/// items. Which one is not said.
#[verifier::external_body]
pub(crate) fn choose_one(items: &Vec<Building>) -> (picked: Option<Building>)
    ensures
        picked is None <==> items.len() == 0,
        picked is Some ==> exists|i: int| 0 <= i < items.len() && picked->0 == items[i],
{
    items.choose(&mut rand::thread_rng()).cloned()
}

/// `SliceRandom::choose_multiple`: copies of `amount` items of the list, or of
/// all of them where it holds fewer, taken at positions that differ from one
/// another, in an order that is not said.
#[verifier::external_body]
pub(crate) fn choose_multiple(items: &Vec<Building>, amount: usize) -> (picked: Vec<Building>)
    ensures
        picked.len() == if amount <= items.len() {
            amount
        } else {
            items.len()
        },
        exists|from: Seq<int>| drawn_from(items@, picked@, from),
{
    items.choose_multiple(&mut rand::thread_rng(), amount).cloned().collect()
}

} // verus!
