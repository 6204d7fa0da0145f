//! Where chance enters: every random choice a scenario makes is drawn here.
//!
//! Nothing is promised about which value comes out, only the bounds within which it lies.
//! The rules that turn a draw into a plan take the draw as an argument and are stated
//! exactly elsewhere.

use vstd::prelude::*;

use rand::distributions::Distribution;
use rand::seq::IteratorRandom;
use rand::Rng;

verus! {

/// Whether `places` names `count` different positions below `length`.
pub open spec fn distinct_places(places: Seq<int>, length: int) -> bool {
    &&& forall|i: int| 0 <= i < places.len() ==> 0 <= #[trigger] places[i] < length
    &&& forall|i: int, j: int| 0 <= i < j < places.len() ==> places[i] != places[j]
}

/// Whether `picked` is made of the items that stand at `places` in `items`.
pub open spec fn taken_at<T>(picked: Seq<T>, items: Seq<T>, places: Seq<int>) -> bool {
    &&& places.len() == picked.len()
    &&& distinct_places(places, items.len() as int)
    &&& forall|i: int| 0 <= i < picked.len() ==> #[trigger] picked[i] == items[places[i]]
}

/// Calls `Rng::gen_range` of `rand` on the thread's generator with the closed range from
/// `low` to `high`. The generator panics on an empty range, so the range must hold a
/// value; what comes back lies in it.
#[verifier::external_body]
pub(crate) fn pick_between(low: usize, high: usize) -> (drawn: usize)
    requires
        low <= high,
    ensures
        low <= drawn <= high,
{
    rand::thread_rng().gen_range(low..=high)
}

/// Calls `Uniform::from` of `rand` with the half-open range below `high` and samples it
/// once on the thread's generator. The distribution panics on an empty range, so `high`
/// must be positive; what comes back lies below it.
#[verifier::external_body]
pub(crate) fn sample_below(high: u128) -> (drawn: u128)
    requires
        high > 0,
    ensures
        drawn < high,
{
    rand::distributions::Uniform::from(0..high).sample(&mut rand::thread_rng())
}

/// Calls `rand::random` for a truth value. Either may come back.
#[verifier::external_body]
pub(crate) fn flip() -> (heads: bool) {
    rand::random()
}

/// Calls `rand::random` for a `u32`. Any may come back.
#[verifier::external_body]
pub(crate) fn any_u32() -> (drawn: u32) {
    rand::random()
}

/// Calls `rand::random` for a `usize`. Any may come back.
#[verifier::external_body]
pub(crate) fn any_usize() -> (drawn: usize) {
    rand::random()
}

/// Calls `rand::random` for a `u128`. Any may come back.
#[verifier::external_body]
pub(crate) fn any_u128() -> (drawn: u128) {
    rand::random()
}

/// Calls `rand::seq::index::sample` on the thread's generator. It panics when asked for
/// more indices than there are; otherwise it hands back exactly `amount` different
/// indices below `length`, in no promised order.
#[verifier::external_body]
pub(crate) fn sample_indices(length: usize, amount: usize) -> (indices: Vec<usize>)
    requires
        amount <= length,
    ensures
        indices@.len() == amount,
        forall|i: int| 0 <= i < indices@.len() ==> #[trigger] indices@[i] < length,
        forall|i: int, j: int| 0 <= i < j < indices@.len() ==> indices@[i] != indices@[j],
{
    rand::seq::index::sample(&mut rand::thread_rng(), length, amount).into_vec()
}

/// Calls `IteratorRandom::choose_multiple` of `rand` on the items of `pairs`, with the
/// thread's generator. It reserves room for `amount` items before it looks at any, and
/// panics where that room cannot even be counted, so no more are asked for than there
/// are. What comes back are the pairs at `amount` different positions of `pairs`, in no
/// promised order.
#[verifier::external_body]
pub(crate) fn choose_pairs(pairs: Vec<(usize, usize)>, amount: usize) -> (picked: Vec<
    (usize, usize),
>)
    requires
        amount <= pairs@.len(),
    ensures
        picked@.len() == amount,
        exists|places: Seq<int>| taken_at(picked@, pairs@, places),
{
    pairs.into_iter().choose_multiple(&mut rand::thread_rng(), amount)
}

} // verus!
