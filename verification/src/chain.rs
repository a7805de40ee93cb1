//! The pending-range chain: an append-only list of slicing steps, held in
//! a `smallvec::SmallVec` so short chains stay inline.
//!
//! Verus cannot take `SmallVec`'s own declaration (its `Array` bound is an
//! outside trait), so the vector sits in a hidden field of [`RangeChain`]
//! and every operation on it is a trusted wrapper, specified over
//! [`chain_ranges`].

use vstd::prelude::*;

use crate::model::SliceKind;

verus! {

/// An ordered list of pending slicing steps.
#[verifier::external_body]
pub struct RangeChain {
    items: smallvec::SmallVec<[SliceKind; 5]>,
}

/// The steps a chain holds, in order.
pub uninterp spec fn chain_ranges(c: RangeChain) -> Seq<SliceKind>;

/// Relies on `smallvec::SmallVec::new`: an empty vector.
#[verifier::external_body]
pub(crate) fn chain_new() -> (c: RangeChain)
    ensures
        chain_ranges(c) == Seq::<SliceKind>::empty(),
{
    RangeChain { items: smallvec::SmallVec::new() }
}

/// Relies on `smallvec::SmallVec::push`: the item goes on the end.
#[verifier::external_body]
pub(crate) fn chain_push(c: &mut RangeChain, k: SliceKind)
    ensures
        chain_ranges(*final(c)) == chain_ranges(*old(c)).push(k),
{
    c.items.push(k)
}

/// Relies on `smallvec::SmallVec::len`: the number of items.
#[verifier::external_body]
pub(crate) fn chain_len(c: &RangeChain) -> (n: usize)
    ensures
        n == chain_ranges(*c).len(),
{
    c.items.len()
}

/// Relies on indexing into `smallvec::SmallVec`: the item at the index.
#[verifier::external_body]
pub(crate) fn chain_get(c: &RangeChain, i: usize) -> (k: SliceKind)
    requires
        i < chain_ranges(*c).len(),
    ensures
        k == chain_ranges(*c)[i as int],
{
    c.items[i]
}

/// Relies on `smallvec::SmallVec::clone`: a copy with the same items.
#[verifier::external_body]
pub(crate) fn chain_clone(c: &RangeChain) -> (d: RangeChain)
    ensures
        chain_ranges(d) == chain_ranges(*c),
{
    RangeChain { items: c.items.clone() }
}

} // verus!
