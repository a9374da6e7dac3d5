//! The order in which simulated snowballs are packed.

use std::cmp::Ordering;
use vstd::prelude::*;

verus! {

/// Whether `snowballs` holds its points by falling `x`.
pub open spec fn is_descending_x(snowballs: Seq<(u8, u8)>) -> bool {
    forall|i: int, j: int| 0 <= i < j < snowballs.len() ==> snowballs[i].0 >= snowballs[j].0
}

/// Compares two points so that the greater `x` comes first.
pub fn descending_x(a: &(u8, u8), b: &(u8, u8)) -> (order: Ordering)
    ensures
        order == (if b.0 < a.0 {
            Ordering::Less
        } else if b.0 == a.0 {
            Ordering::Equal
        } else {
            Ordering::Greater
        }),
{
    if b.0 < a.0 {
        Ordering::Less
    } else if b.0 == a.0 {
        Ordering::Equal
    } else {
        Ordering::Greater
    }
}

/// Sorts the points by falling `x` with `slice::sort_unstable_by` of std. The
/// points stay the same points, each as often as before, and end up ordered by
/// falling `x`; in which order points of equal `x` end up is left open.
#[verifier::external_body]
pub(crate) fn sort_descending_x(snowballs: &mut Vec<(u8, u8)>)
    ensures
        final(snowballs)@.to_multiset() == old(snowballs)@.to_multiset(),
        final(snowballs)@.len() == old(snowballs)@.len(),
        is_descending_x(final(snowballs)@),
{
    snowballs.sort_unstable_by(|a, b| descending_x(a, b));
}

} // verus!
