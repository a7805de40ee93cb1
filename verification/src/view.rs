//! The composable view: a buffer handle plus an ordered chain of pending
//! slicing steps, resolved only when a query needs concrete data.

use vstd::prelude::*;

use crate::buffer::{
    rope_clone, rope_from_str, rope_full_slice, slice_char_at, slice_char_to_byte, slice_chars,
    slice_bytes, slice_eq_slice, slice_eq_str, slice_len_chars, slice_len_lines, slice_line,
    slice_to_string, slice_content, rope_content, str_ends_with, str_starts_with, str_trim_start,
};
use crate::chain::{chain_clone, chain_get, chain_len, chain_new, chain_push, chain_ranges, RangeChain};
use crate::model::{
    apply_step, char_range_content, byte_range_content, line_content, line_count,
    lemma_resolve_chain_push, lemma_whitespace_prefix_len, resolve_chain, trim_start_content,
    utf8_len, whitespace_prefix_len, RangeError, SliceKind,
};

verus! {

/// A lazy view of a text buffer: the buffer itself and the slicing steps
/// not yet applied to it.
///
/// Every slicing operation consumes the view and returns a new one with
/// one more pending step; nothing is validated until a query resolves the
/// chain, and an out-of-range step surfaces there as a
/// [`RangeError::ChainStep`].
pub struct SteelRopeSlice {
    text: ropey::Rope,
    ranges: RangeChain,
}

impl SteelRopeSlice {
    /// The characters of the underlying buffer.
    pub closed spec fn buffer_chars(self) -> Seq<char> {
        rope_content(self.text)
    }

    /// The pending slicing steps, in order.
    pub closed spec fn chain(self) -> Seq<SliceKind> {
        chain_ranges(self.ranges)
    }

    /// What the view denotes: the chain applied to the buffer, or nothing
    /// when some step is out of range.
    pub open spec fn content(self) -> Option<Seq<char>> {
        resolve_chain(self.buffer_chars(), self.chain())
    }

    /// The step at `step` of the chain is the first that does not fit the
    /// content produced by the steps before it.
    pub open spec fn fails_at(self, step: int) -> bool {
        &&& 0 <= step < self.chain().len()
        &&& resolve_chain(self.buffer_chars(), self.chain().take(step)) matches Some(c)
            && apply_step(c, self.chain()[step]) is None
    }

    /// A fresh view over a buffer built from the text; no pending steps.
    pub fn from_string(string: &str) -> (v: Self)
        ensures
            v.buffer_chars() == string@,
            v.chain() == Seq::<SliceKind>::empty(),
            v.content() == Some(string@),
    {
        SteelRopeSlice { text: rope_from_str(string), ranges: chain_new() }
    }

    /// A fresh view over an existing buffer; no pending steps, no copy of
    /// the buffer's contents.
    pub fn new(rope: ropey::Rope) -> (v: Self)
        ensures
            v.buffer_chars() == rope_content(rope),
            v.chain() == Seq::<SliceKind>::empty(),
            v.content() == Some(rope_content(rope)),
    {
        SteelRopeSlice { text: rope, ranges: chain_new() }
    }

    /// Applies the pending steps in order, producing the one concrete
    /// slice every read-only query routes through. Fails on the first
    /// step whose bounds exceed the extent of the content before it.
    fn resolve<'a>(&'a self) -> (r: Result<ropey::RopeSlice<'a>, RangeError>)
        ensures
            match r {
                Ok(s) => self.content() == Some(slice_content(s)),
                Err(e) => {
                    &&& self.content() is None
                    &&& e matches RangeError::ChainStep(step) && self.fails_at(step as int)
                },
            },
    {
        let ghost buf = self.buffer_chars();
        let ghost ks = self.chain();
        let mut cur: ropey::RopeSlice<'a> = rope_full_slice(&self.text);
        let n = chain_len(&self.ranges);
        let mut i: usize = 0;
        proof {
            assert(ks.skip(0) =~= ks);
            assert(ks.take(0) =~= Seq::<SliceKind>::empty());
        }
        while i < n
            invariant
                n == ks.len(),
                0 <= i <= n,
                buf == self.buffer_chars(),
                ks == self.chain(),
                resolve_chain(buf, ks.take(i as int)) == Some(slice_content(cur)),
                resolve_chain(buf, ks) == resolve_chain(slice_content(cur), ks.skip(i as int)),
            decreases n - i,
        {
            let k = chain_get(&self.ranges, i);
            let ghost prev = slice_content(cur);
            let stepped: Option<ropey::RopeSlice<'a>> = match k {
                SliceKind::Normal(lower, upper) => slice_chars(cur, lower, upper),
                SliceKind::Byte(lower, upper) => slice_bytes(cur, lower, upper),
                SliceKind::Line(index) => slice_line(cur, index),
            };
            proof {
                assert(ks.skip(i as int).first() == ks[i as int]);
                assert(ks.skip(i as int).drop_first() =~= ks.skip(i as int + 1));
                assert(ks.take(i as int + 1) =~= ks.take(i as int).push(ks[i as int]));
                lemma_resolve_chain_push(buf, ks.take(i as int), ks[i as int]);
            }
            match stepped {
                Some(next) => {
                    cur = next;
                },
                None => {
                    proof {
                        assert(apply_step(prev, ks[i as int]) is None);
                        assert(resolve_chain(prev, ks.skip(i as int)) is None);
                    }
                    return Err(RangeError::ChainStep(i));
                },
            }
            i = i + 1;
        }
        proof {
            assert(ks.skip(n as int) =~= Seq::<SliceKind>::empty());
        }
        Ok(cur)
    }

    /// Appends a character-range step; no resolution happens.
    pub fn slice(self, lower: usize, upper: usize) -> (v: Self)
        ensures
            v.buffer_chars() == self.buffer_chars(),
            v.chain() == self.chain().push(SliceKind::Normal(lower, upper)),
            v.content() == (match self.content() {
                Some(c) => char_range_content(c, lower, upper),
                None => None::<Seq<char>>,
            }),
    {
        proof {
            lemma_resolve_chain_push(
                self.buffer_chars(),
                self.chain(),
                SliceKind::Normal(lower, upper),
            );
        }
        let mut v = self;
        chain_push(&mut v.ranges, SliceKind::Normal(lower, upper));
        v
    }

    /// Appends a byte-range step; no resolution happens.
    pub fn byte_slice(self, lower: usize, upper: usize) -> (v: Self)
        ensures
            v.buffer_chars() == self.buffer_chars(),
            v.chain() == self.chain().push(SliceKind::Byte(lower, upper)),
            v.content() == (match self.content() {
                Some(c) => byte_range_content(c, lower, upper),
                None => None::<Seq<char>>,
            }),
    {
        proof {
            lemma_resolve_chain_push(
                self.buffer_chars(),
                self.chain(),
                SliceKind::Byte(lower, upper),
            );
        }
        let mut v = self;
        chain_push(&mut v.ranges, SliceKind::Byte(lower, upper));
        v
    }

    /// Appends a single-line step; no resolution happens.
    pub fn line(self, cursor: usize) -> (v: Self)
        ensures
            v.buffer_chars() == self.buffer_chars(),
            v.chain() == self.chain().push(SliceKind::Line(cursor)),
            v.content() == (match self.content() {
                Some(c) => line_content(c, cursor),
                None => None::<Seq<char>>,
            }),
    {
        proof {
            lemma_resolve_chain_push(self.buffer_chars(), self.chain(), SliceKind::Line(cursor));
        }
        let mut v = self;
        chain_push(&mut v.ranges, SliceKind::Line(cursor));
        v
    }

    /// Resolves, then converts a character offset within the resolved
    /// content to the byte offset where it starts. `pos` one past the last
    /// character is allowed and yields the content's byte length.
    pub fn char_to_byte(&self, pos: usize) -> (r: Result<usize, RangeError>)
        ensures
            match r {
                Ok(b) => self.content() matches Some(c) && pos <= c.len() && b == utf8_len(
                    c.take(pos as int),
                ),
                Err(e) => match e {
                    RangeError::ChainStep(step) => self.content() is None && self.fails_at(
                        step as int,
                    ),
                    RangeError::CharOffset(p) => p == pos && (self.content() matches Some(c)
                        && pos > c.len()),
                },
            },
    {
        let sl = match self.resolve() {
            Ok(s) => s,
            Err(e) => {
                return Err(e);
            },
        };
        match slice_char_to_byte(sl, pos) {
            Some(b) => Ok(b),
            None => Err(RangeError::CharOffset(pos)),
        }
    }

    /// Resolves and returns the content as an owned string.
    pub fn to_string(&self) -> (r: Result<String, RangeError>)
        ensures
            match r {
                Ok(t) => self.content() == Some(t@),
                Err(e) => self.content() is None && (e matches RangeError::ChainStep(step)
                    && self.fails_at(step as int)),
            },
    {
        let sl = match self.resolve() {
            Ok(s) => s,
            Err(e) => {
                return Err(e);
            },
        };
        Ok(slice_to_string(sl))
    }

    /// Resolves and returns the content's character count.
    pub fn len_chars(&self) -> (r: Result<usize, RangeError>)
        ensures
            match r {
                Ok(n) => self.content() matches Some(c) && n == c.len(),
                Err(e) => self.content() is None && (e matches RangeError::ChainStep(step)
                    && self.fails_at(step as int)),
            },
    {
        let sl = match self.resolve() {
            Ok(s) => s,
            Err(e) => {
                return Err(e);
            },
        };
        Ok(slice_len_chars(sl))
    }

    /// Resolves and returns the content's line count: one more than its
    /// number of line breaks.
    pub fn len_lines(&self) -> (r: Result<usize, RangeError>)
        ensures
            match r {
                Ok(n) => self.content() matches Some(c) && n == line_count(c),
                Err(e) => self.content() is None && (e matches RangeError::ChainStep(step)
                    && self.fails_at(step as int)),
            },
    {
        let sl = match self.resolve() {
            Ok(s) => s,
            Err(e) => {
                return Err(e);
            },
        };
        Ok(slice_len_lines(sl))
    }

    /// Resolves and returns the character at `index`, or `None` when
    /// `index` is at or past the character count — the one query that
    /// soft-fails on an out-of-range argument instead of erroring.
    pub fn get_char(&self, index: usize) -> (r: Result<Option<char>, RangeError>)
        ensures
            match r {
                Ok(found) => self.content() matches Some(c) && (match found {
                    Some(ch) => index < c.len() && ch == c[index as int],
                    None => index >= c.len(),
                }),
                Err(e) => self.content() is None && (e matches RangeError::ChainStep(step)
                    && self.fails_at(step as int)),
            },
    {
        let sl = match self.resolve() {
            Ok(s) => s,
            Err(e) => {
                return Err(e);
            },
        };
        Ok(slice_char_at(sl, index))
    }

    /// Resolves, scans the content's leading characters, and — when a
    /// non-whitespace character stands at relative offset `idx` — appends
    /// the character-range step `[idx, len)`, so the view now denotes the
    /// content with its leading whitespace removed. Content that is empty
    /// or all whitespace leaves the chain unchanged rather than
    /// over-trimming to an empty range.
    pub fn trim_start(self) -> (r: Result<Self, RangeError>)
        ensures
            match r {
                Ok(v) => {
                    &&& self.content() matches Some(c) && ({
                        let w = whitespace_prefix_len(c);
                        &&& v.buffer_chars() == self.buffer_chars()
                        &&& if w < c.len() {
                            &&& v.chain() == self.chain().push(
                                SliceKind::Normal(w as usize, c.len() as usize),
                            )
                            &&& v.content() == Some(trim_start_content(c))
                        } else {
                            v.chain() == self.chain()
                        }
                    })
                },
                Err(e) => self.content() is None && (e matches RangeError::ChainStep(step)
                    && self.fails_at(step as int)),
            },
    {
        let ghost c: Seq<char>;
        let mut found: Option<usize> = None;
        let mut total: usize = 0;
        {
            let sl = match self.resolve() {
                Ok(s) => s,
                Err(e) => {
                    return Err(e);
                },
            };
            proof {
                c = slice_content(sl);
            }
            total = slice_len_chars(sl);
            let n = total;
            let mut i: usize = 0;
            while i < n && found.is_none()
                invariant
                    n == c.len(),
                    0 <= i <= n,
                    c == slice_content(sl),
                    forall|j: int| 0 <= j < i ==> crate::model::unicode_whitespace(c[j]),
                    match found {
                        Some(idx) => idx == i && i < n && !crate::model::unicode_whitespace(
                            c[i as int],
                        ),
                        None => true,
                    },
                decreases n - i + (if found.is_none() { 1int } else { 0int }),
            {
                let ch = slice_char_at(sl, i).unwrap();
                if !ch.is_whitespace() {
                    found = Some(i);
                } else {
                    i = i + 1;
                }
            }
            proof {
                match found {
                    Some(idx) => {
                        lemma_whitespace_prefix_len(c, idx as int);
                    },
                    None => {
                        lemma_whitespace_prefix_len(c, c.len() as int);
                    },
                }
            }
        }
        match found {
            Some(idx) => {
                proof {
                    lemma_resolve_chain_push(
                        self.buffer_chars(),
                        self.chain(),
                        SliceKind::Normal(idx, total),
                    );
                    assert(c.subrange(idx as int, total as int) =~= trim_start_content(c));
                }
                let mut v = self;
                chain_push(&mut v.ranges, SliceKind::Normal(idx, total));
                Ok(v)
            },
            None => Ok(self),
        }
    }

    /// Resolves, trims leading whitespace from a materialized copy of the
    /// content — the chain itself is untouched — and tests the pattern
    /// against what is left.
    pub fn trimmed_starts_with(&self, pat: &str) -> (r: Result<bool, RangeError>)
        ensures
            match r {
                Ok(b) => self.content() matches Some(c) && b == pat@.is_prefix_of(
                    trim_start_content(c),
                ),
                Err(e) => self.content() is None && (e matches RangeError::ChainStep(step)
                    && self.fails_at(step as int)),
            },
    {
        let sl = match self.resolve() {
            Ok(s) => s,
            Err(e) => {
                return Err(e);
            },
        };
        let text = slice_to_string(sl);
        let trimmed = str_trim_start(text.as_str());
        Ok(str_starts_with(trimmed, pat))
    }

    /// Resolves and tests whether the pattern's characters are a prefix
    /// of the content.
    pub fn starts_with(&self, pat: &str) -> (r: Result<bool, RangeError>)
        ensures
            match r {
                Ok(b) => self.content() matches Some(c) && b == pat@.is_prefix_of(c),
                Err(e) => self.content() is None && (e matches RangeError::ChainStep(step)
                    && self.fails_at(step as int)),
            },
    {
        let sl = match self.resolve() {
            Ok(s) => s,
            Err(e) => {
                return Err(e);
            },
        };
        let text = slice_to_string(sl);
        Ok(str_starts_with(text.as_str(), pat))
    }

    /// Resolves and tests whether the pattern's characters are a suffix
    /// of the content.
    pub fn ends_with(&self, pat: &str) -> (r: Result<bool, RangeError>)
        ensures
            match r {
                Ok(b) => self.content() matches Some(c) && b == pat@.is_suffix_of(c),
                Err(e) => self.content() is None && (e matches RangeError::ChainStep(step)
                    && self.fails_at(step as int)),
            },
    {
        let sl = match self.resolve() {
            Ok(s) => s,
            Err(e) => {
                return Err(e);
            },
        };
        let text = slice_to_string(sl);
        Ok(str_ends_with(text.as_str(), pat))
    }

    /// The equality hook for another view: both sides resolve and the
    /// resolved contents are compared — never the buffers or the chains
    /// themselves. A view that fails to resolve equals nothing.
    pub fn equals_view(&self, other: &Self) -> (r: bool)
        ensures
            r == (self.content() is Some && self.content() == other.content()),
    {
        let a = match self.resolve() {
            Ok(s) => s,
            Err(_) => {
                return false;
            },
        };
        let b = match other.resolve() {
            Ok(s) => s,
            Err(_) => {
                return false;
            },
        };
        slice_eq_slice(a, b)
    }

    /// The equality hook for a plain string: the resolved content is
    /// compared with the string's characters. A view that fails to
    /// resolve equals nothing.
    pub fn equals_text(&self, other: &str) -> (r: bool)
        ensures
            r == (self.content() == Some(other@)),
    {
        let a = match self.resolve() {
            Ok(s) => s,
            Err(_) => {
                return false;
            },
        };
        slice_eq_str(a, other)
    }
}

impl Clone for SteelRopeSlice {
    /// A new handle over the structurally shared buffer, with its own
    /// copy of the chain: the clone and the original resolve alike and
    /// extend independently.
    fn clone(&self) -> (v: Self)
        ensures
            v.buffer_chars() == self.buffer_chars(),
            v.chain() == self.chain(),
            v.content() == self.content(),
    {
        SteelRopeSlice { text: rope_clone(&self.text), ranges: chain_clone(&self.ranges) }
    }
}

} // verus!
