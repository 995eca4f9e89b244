//! Request ids: a counter written out in decimal.
use vstd::prelude::*;

use crate::text::{decimal, lemma_decimal_injective, to_decimal};

verus! {

/// The counter that request ids are drawn from.
pub struct IdCounter {
    pub next: usize,
}

impl IdCounter {
    /// A counter that starts at zero.
    pub fn new() -> (r: IdCounter)
        ensures
            r.next == 0,
    {
        IdCounter { next: 0 }
    }
}

/// The counter value after one id has been drawn (it wraps around past `usize::MAX`).
pub open spec fn advanced(next: usize) -> usize {
    if next == usize::MAX {
        0
    } else {
        (next + 1) as usize
    }
}

/// Draws the next id: the current counter value in decimal; the counter moves on by one.
pub fn generate_id(ids: &mut IdCounter) -> (r: String)
    ensures
        r@ == decimal(old(ids).next as nat),
        final(ids).next == advanced(old(ids).next),
{
    let id = to_decimal(ids.next);
    ids.next = ids.next.wrapping_add(1);
    id
}

/// Ids drawn at different counter values differ: no two of the first `usize::MAX + 1`
/// ids a counter hands out are the same.
pub proof fn lemma_ids_distinct(a: usize, b: usize)
    requires
        a != b,
    ensures
        decimal(a as nat) != decimal(b as nat),
{
    if decimal(a as nat) == decimal(b as nat) {
        lemma_decimal_injective(a as nat, b as nat);
    }
}

/// Two ids drawn one after the other from the same counter differ.
pub proof fn lemma_successive_ids_differ(next: usize)
    ensures
        decimal(next as nat) != decimal(advanced(next) as nat),
{
    lemma_ids_distinct(next, advanced(next));
}

} // verus!
