//! The mathematical model of a view: its content as a sequence of
//! characters, and what each pending slicing step means for that content.

use vstd::prelude::*;

verus! {

/// One deferred slicing step, relative to the content produced by the
/// steps before it.
#[derive(Clone, Copy, Debug, PartialEq, Eq, Structural)]
pub enum SliceKind {
    /// Keep the characters in `[lower, upper)`.
    Normal(usize, usize),
    /// Keep the bytes in `[lower, upper)`; both bounds must fall on
    /// character boundaries of the UTF-8 encoding.
    Byte(usize, usize),
    /// Keep a single line, including its trailing line break if any.
    Line(usize),
}

/// Why a query failed: some step of the chain, or a character offset,
/// was out of range for the content it applies to.
#[derive(Clone, Copy, Debug, PartialEq, Eq, Structural)]
pub enum RangeError {
    /// The pending step at this position of the chain does not fit the
    /// content produced by the steps before it.
    ChainStep(usize),
    /// A character offset handed to an offset-conversion query exceeds
    /// the resolved content's character length.
    CharOffset(usize),
}

/// How many bytes the UTF-8 encoding of one character takes.
pub open spec fn utf8_len_of_char(c: char) -> nat {
    if (c as u32) < 0x80 {
        1
    } else if (c as u32) < 0x800 {
        2
    } else if (c as u32) < 0x10000 {
        3
    } else {
        4
    }
}

/// How many bytes the UTF-8 encoding of this character sequence takes.
pub open spec fn utf8_len(s: Seq<char>) -> nat
    decreases s.len(),
{
    if s.len() == 0 {
        0
    } else {
        utf8_len_of_char(s.first()) + utf8_len(s.drop_first())
    }
}

/// The character index whose encoding starts at byte offset `b`, if `b`
/// falls on a character boundary of the UTF-8 encoding of `s` (the offset
/// one past the last byte counts as a boundary).
pub open spec fn char_index_at_byte(s: Seq<char>, b: int) -> Option<int>
    decreases s.len(),
{
    if b == 0 {
        Some(0int)
    } else if s.len() == 0 {
        None
    } else if b < utf8_len_of_char(s.first()) {
        None
    } else {
        match char_index_at_byte(s.drop_first(), b - utf8_len_of_char(s.first())) {
            Some(i) => Some(i + 1),
            None => None,
        }
    }
}

/// Whether a character ends a line.
pub open spec fn is_line_break(c: char) -> bool {
    c == '\n'
}

/// The number of line breaks in the content.
pub open spec fn line_break_count(s: Seq<char>) -> nat
    decreases s.len(),
{
    if s.len() == 0 {
        0
    } else {
        (if is_line_break(s.first()) {
            1nat
        } else {
            0nat
        }) + line_break_count(s.drop_first())
    }
}

/// The number of lines: one more than the number of line breaks, so the
/// (possibly empty) text after the final break is itself a line.
pub open spec fn line_count(s: Seq<char>) -> nat {
    line_break_count(s) + 1
}

/// The length of the first line, counting its trailing line break.
pub open spec fn first_line_len(s: Seq<char>) -> nat
    decreases s.len(),
{
    if s.len() == 0 {
        0
    } else if is_line_break(s.first()) {
        1
    } else {
        1 + first_line_len(s.drop_first())
    }
}

/// The line at index `i`, including its trailing line break if any.
pub open spec fn line_at(s: Seq<char>, i: int) -> Seq<char>
    decreases i,
{
    if i <= 0 {
        s.take(first_line_len(s) as int)
    } else {
        line_at(s.skip(first_line_len(s) as int), i - 1)
    }
}

/// What a character-range step produces: the characters in
/// `[lower, upper)`, or nothing when the bounds do not fit the content.
pub open spec fn char_range_content(s: Seq<char>, lower: usize, upper: usize) -> Option<Seq<char>> {
    if lower <= upper && upper <= s.len() {
        Some(s.subrange(lower as int, upper as int))
    } else {
        None
    }
}

/// What a byte-range step produces: the characters whose encoding lies in
/// `[lower, upper)`, or nothing when a bound is out of range or does not
/// fall on a character boundary.
pub open spec fn byte_range_content(s: Seq<char>, lower: usize, upper: usize) -> Option<Seq<char>> {
    if lower <= upper {
        match (char_index_at_byte(s, lower as int), char_index_at_byte(s, upper as int)) {
            (Some(i), Some(j)) => Some(s.subrange(i, j)),
            _ => None,
        }
    } else {
        None
    }
}

/// What a line step produces: the line at `index`, or nothing when the
/// content has fewer lines.
pub open spec fn line_content(s: Seq<char>, index: usize) -> Option<Seq<char>> {
    if index < line_count(s) {
        Some(line_at(s, index as int))
    } else {
        None
    }
}

/// What one pending step produces from the content it applies to.
pub open spec fn apply_step(s: Seq<char>, k: SliceKind) -> Option<Seq<char>> {
    match k {
        SliceKind::Normal(lower, upper) => char_range_content(s, lower, upper),
        SliceKind::Byte(lower, upper) => byte_range_content(s, lower, upper),
        SliceKind::Line(index) => line_content(s, index),
    }
}

/// The content of a whole chain applied to `s`, step by step from the
/// front; the first step that does not fit makes the whole chain fail.
pub open spec fn resolve_chain(s: Seq<char>, ks: Seq<SliceKind>) -> Option<Seq<char>>
    decreases ks.len(),
{
    if ks.len() == 0 {
        Some(s)
    } else {
        match apply_step(s, ks.first()) {
            Some(t) => resolve_chain(t, ks.drop_first()),
            None => None,
        }
    }
}

/// Appending one step to a chain resolves to that step applied to
/// whatever the original chain resolves to; failure stays failure.
pub proof fn lemma_resolve_chain_push(s: Seq<char>, ks: Seq<SliceKind>, k: SliceKind)
    ensures
        resolve_chain(s, ks.push(k)) == (match resolve_chain(s, ks) {
            Some(c) => apply_step(c, k),
            None => None::<Seq<char>>,
        }),
    decreases ks.len(),
{
    let kk = ks.push(k);
    if ks.len() == 0 {
        assert(kk.first() == k);
        assert(kk.drop_first() =~= Seq::<SliceKind>::empty());
        assert(resolve_chain(s, ks) == Some(s));
        match apply_step(s, k) {
            Some(t) => {
                assert(resolve_chain(t, kk.drop_first()) == Some(t));
                assert(resolve_chain(s, kk) == Some(t));
            },
            None => {
                assert(resolve_chain(s, kk) is None);
            },
        }
    } else {
        assert(kk.first() == ks.first());
        assert(kk.drop_first() =~= ks.drop_first().push(k));
        match apply_step(s, ks.first()) {
            Some(t) => {
                lemma_resolve_chain_push(t, ks.drop_first(), k);
                assert(resolve_chain(s, kk) == resolve_chain(t, ks.drop_first().push(k)));
                assert(resolve_chain(s, ks) == resolve_chain(t, ks.drop_first()));
            },
            None => {
                assert(resolve_chain(s, kk) is None);
                assert(resolve_chain(s, ks) is None);
            },
        }
    }
}

/// What the host's whitespace notion says of one character; it stands
/// for the Unicode `White_Space` property that `char::is_whitespace`
/// implements.
pub uninterp spec fn unicode_whitespace(c: char) -> bool;

/// How many leading characters of the content are whitespace.
pub open spec fn whitespace_prefix_len(s: Seq<char>) -> nat
    decreases s.len(),
{
    if s.len() == 0 {
        0
    } else if unicode_whitespace(s.first()) {
        1 + whitespace_prefix_len(s.drop_first())
    } else {
        0
    }
}

/// The content with its leading whitespace removed.
pub open spec fn trim_start_content(s: Seq<char>) -> Seq<char> {
    s.skip(whitespace_prefix_len(s) as int)
}

/// A scan that saw whitespace everywhere before `i`, and something else
/// at `i` if `i` is inside the content, has found the whitespace prefix.
pub proof fn lemma_whitespace_prefix_len(s: Seq<char>, i: int)
    requires
        0 <= i <= s.len(),
        forall|j: int| 0 <= j < i ==> unicode_whitespace(s[j]),
        i < s.len() ==> !unicode_whitespace(s[i]),
    ensures
        whitespace_prefix_len(s) == i,
    decreases s.len(),
{
    if s.len() == 0 {
    } else if i == 0 {
    } else {
        assert(unicode_whitespace(s.first()));
        lemma_whitespace_prefix_len(s.drop_first(), i - 1);
    }
}

} // verus!
