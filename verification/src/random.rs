//! Drawing by lot, from the thread's own generator of random numbers.

use rand::seq::IndexedRandom;
use vstd::prelude::*;

verus! {

/// Calls `rand::random_range` on the range from `low` up to `high`, which is left
/// out. Claims that the number drawn is in the range. The call panics on an empty
/// range, so that is ruled out.
#[verifier::external_body]
pub(crate) fn draw_range(low: i32, high: i32) -> (drawn: i32)
    requires
        low < high,
    ensures
        low <= drawn < high,
{
    rand::random_range(low..high)
}

/// Calls `rand::random` for a truth value. Claims nothing of what is drawn.
#[verifier::external_body]
pub(crate) fn draw_bool() -> (drawn: bool) {
    rand::random::<bool>()
}

/// Calls `rand::random` for a 32-bit number. Claims nothing of what is drawn.
#[verifier::external_body]
pub(crate) fn draw_number() -> (drawn: u32) {
    rand::random::<u32>()
}

/// Calls `rand::random` for a signed 32-bit number. Claims nothing of what is drawn.
#[verifier::external_body]
pub(crate) fn draw_seed() -> (drawn: i32) {
    rand::random::<i32>()
}

/// Calls `IndexedRandom::choose` of `rand` on the list. Claims that one of the items is
/// drawn, unless the list is empty.
#[verifier::external_body]
pub(crate) fn draw_one<T>(items: &Vec<T>) -> (drawn: Option<&T>)
    ensures
        drawn is None <==> items@.len() == 0,
        drawn matches Some(item) ==> items@.contains(*item),
{
    items.as_slice().choose(&mut rand::rng())
}

/// The drawn items come from different places of the list.
pub open spec fn drawn_from<T>(drawn: Seq<T>, items: Seq<T>) -> bool {
    exists|places: Seq<int>|
        {
            &&& #[trigger] places.len() == drawn.len()
            &&& places.no_duplicates()
            &&& forall|i: int|
                0 <= i < places.len() ==> 0 <= #[trigger] places[i] < items.len() && drawn[i]
                    == items[places[i]]
        }
}

/// Calls `IndexedRandom::sample` of `rand` on the list. Claims that as many items are
/// drawn as are asked for, or all where there are fewer, and that no place of the list
/// is drawn twice. In what order they come is left open.
#[verifier::external_body]
pub(crate) fn draw_some<T: Copy>(items: &Vec<T>, amount: usize) -> (drawn: Vec<T>)
    ensures
        drawn@.len() == (if amount < items@.len() {
            amount as nat
        } else {
            items@.len()
        }),
        drawn_from(drawn@, items@),
{
    items.as_slice().sample(&mut rand::rng(), amount).copied().collect()
}

} // verus!
