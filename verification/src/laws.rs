//! Library-wide laws: facts that relate several operations, stated over
//! the same model the operations' own contracts use.

use vstd::prelude::*;

use crate::model::{
    apply_step, char_range_content, lemma_resolve_chain_push, resolve_chain, SliceKind,
};
use crate::view::SteelRopeSlice;

verus! {

/// Chain associativity of content: two nested character-range steps,
/// when the inner one fits inside the outer, resolve to the same content
/// as the single composed range on the original.
pub proof fn lemma_char_ranges_compose(
    s: Seq<char>,
    ks: Seq<SliceKind>,
    a: usize,
    b: usize,
    c: usize,
    d: usize,
)
    requires
        resolve_chain(s, ks) matches Some(m) && a <= b <= m.len(),
        c <= d <= (b - a),
    ensures
        resolve_chain(s, ks.push(SliceKind::Normal(a, b)).push(SliceKind::Normal(c, d)))
            == resolve_chain(s, ks.push(SliceKind::Normal((a + c) as usize, (a + d) as usize))),
        resolve_chain(s, ks.push(SliceKind::Normal(a, b)).push(SliceKind::Normal(c, d))) is Some,
{
    let m = resolve_chain(s, ks)->Some_0;
    lemma_resolve_chain_push(s, ks, SliceKind::Normal(a, b));
    lemma_resolve_chain_push(s, ks.push(SliceKind::Normal(a, b)), SliceKind::Normal(c, d));
    lemma_resolve_chain_push(s, ks, SliceKind::Normal((a + c) as usize, (a + d) as usize));
    let outer = m.subrange(a as int, b as int);
    assert(outer.subrange(c as int, d as int) =~= m.subrange(a + c, a + d));
}

/// Append-only immutability: a slicing operation builds a view whose
/// content is a pure function of the source view's content and the one
/// appended step; the source view is an unchanged value, so it still
/// resolves to what it resolved to before, and the two are independent.
pub proof fn lemma_append_only(v1: SteelRopeSlice, v2: SteelRopeSlice, k: SliceKind)
    requires
        v2.buffer_chars() == v1.buffer_chars(),
        v2.chain() == v1.chain().push(k),
    ensures
        v2.content() == (match v1.content() {
            Some(c) => apply_step(c, k),
            None => None::<Seq<char>>,
        }),
{
    lemma_resolve_chain_push(v1.buffer_chars(), v1.chain(), k);
}

/// Round-trip construction: a view fresh over a buffer, with no pending
/// steps, resolves to exactly the buffer's text.
pub proof fn lemma_round_trip(v: SteelRopeSlice, s: Seq<char>)
    requires
        v.buffer_chars() == s,
        v.chain() == Seq::<SliceKind>::empty(),
    ensures
        v.content() == Some(s),
{
}

} // verus!
