//! The trusted boundary to the text buffer and to the standard library's
//! string primitives.
//!
//! The buffer is `ropey`'s rope: immutable here, structurally shared on
//! clone, with character-, byte- and line-addressed sub-slicing. Each
//! wrapper below states, over the model of `crate::model`, exactly what the
//! one call in its body returns; Verus believes these contracts without
//! reading the bodies.

use vstd::prelude::*;

use crate::model::{
    char_range_content, byte_range_content, line_content, line_count, trim_start_content,
    unicode_whitespace, utf8_len,
};

verus! {

#[verifier::external_type_specification]
#[verifier::external_body]
pub struct ExRope(ropey::Rope);

#[verifier::external_type_specification]
#[verifier::external_body]
pub struct ExRopeSlice<'a>(ropey::RopeSlice<'a>);

/// The characters a rope holds.
pub uninterp spec fn rope_content(r: ropey::Rope) -> Seq<char>;

/// The characters a rope slice holds.
pub uninterp spec fn slice_content(s: ropey::RopeSlice) -> Seq<char>;

/// Relies on `ropey::Rope::from_str`: the rope holds exactly the
/// characters of the text it was built from.
#[verifier::external_body]
pub(crate) fn rope_from_str(text: &str) -> (r: ropey::Rope)
    ensures
        rope_content(r) == text@,
{
    ropey::Rope::from_str(text)
}

/// Relies on `ropey::Rope::clone`: a structurally shared copy with the
/// same content.
#[verifier::external_body]
pub(crate) fn rope_clone(r: &ropey::Rope) -> (c: ropey::Rope)
    ensures
        rope_content(c) == rope_content(*r),
{
    r.clone()
}

/// Relies on `ropey::Rope::slice` with an unbounded range: a slice of the
/// whole rope.
#[verifier::external_body]
pub(crate) fn rope_full_slice<'a>(r: &'a ropey::Rope) -> (s: ropey::RopeSlice<'a>)
    ensures
        slice_content(s) == rope_content(*r),
{
    r.slice(..)
}

/// Relies on `ropey::RopeSlice::get_slice`: `Some` exactly when
/// `lower <= upper <= len_chars`, holding the characters in
/// `[lower, upper)`.
#[verifier::external_body]
pub(crate) fn slice_chars<'a>(s: ropey::RopeSlice<'a>, lower: usize, upper: usize) -> (r: Option<
    ropey::RopeSlice<'a>,
>)
    ensures
        match r {
            Some(t) => char_range_content(slice_content(s), lower, upper) == Some(
                slice_content(t),
            ),
            None => char_range_content(slice_content(s), lower, upper) is None,
        },
{
    s.get_slice(lower..upper)
}

/// Relies on `ropey::RopeSlice::get_byte_slice`: `Some` exactly when
/// `lower <= upper <= len_bytes` and both bounds fall on character
/// boundaries, holding the characters encoded in byte range
/// `[lower, upper)`.
#[verifier::external_body]
pub(crate) fn slice_bytes<'a>(s: ropey::RopeSlice<'a>, lower: usize, upper: usize) -> (r: Option<
    ropey::RopeSlice<'a>,
>)
    ensures
        match r {
            Some(t) => byte_range_content(slice_content(s), lower, upper) == Some(
                slice_content(t),
            ),
            None => byte_range_content(slice_content(s), lower, upper) is None,
        },
{
    s.get_byte_slice(lower..upper)
}

/// Relies on `ropey::RopeSlice::get_line`: `Some` exactly when the index
/// is below `len_lines`, holding that line with its trailing line break.
#[verifier::external_body]
pub(crate) fn slice_line<'a>(s: ropey::RopeSlice<'a>, index: usize) -> (r: Option<ropey::RopeSlice<'a>>)
    ensures
        match r {
            Some(t) => line_content(slice_content(s), index) == Some(slice_content(t)),
            None => line_content(slice_content(s), index) is None,
        },
{
    s.get_line(index)
}

/// Relies on `ropey::RopeSlice::len_chars`: the number of characters.
#[verifier::external_body]
pub(crate) fn slice_len_chars(s: ropey::RopeSlice) -> (n: usize)
    ensures
        n == slice_content(s).len(),
{
    s.len_chars()
}

/// Relies on `ropey::RopeSlice::len_lines`: one more than the number of
/// line breaks.
#[verifier::external_body]
pub(crate) fn slice_len_lines(s: ropey::RopeSlice) -> (n: usize)
    ensures
        n == line_count(slice_content(s)),
{
    s.len_lines()
}

/// Relies on `ropey::RopeSlice::get_char`: the character at the index,
/// `None` exactly when the index is out of range.
#[verifier::external_body]
pub(crate) fn slice_char_at(s: ropey::RopeSlice, index: usize) -> (r: Option<char>)
    ensures
        match r {
            Some(c) => index < slice_content(s).len() && c == slice_content(s)[index as int],
            None => index >= slice_content(s).len(),
        },
{
    s.get_char(index)
}

/// Relies on `ropey::RopeSlice::try_char_to_byte`: the byte offset where
/// the character at `pos` starts (one past the end for `pos == len_chars`),
/// an error exactly when `pos` exceeds the character length.
#[verifier::external_body]
pub(crate) fn slice_char_to_byte(s: ropey::RopeSlice, pos: usize) -> (r: Option<usize>)
    ensures
        match r {
            Some(b) => pos <= slice_content(s).len() && b == utf8_len(
                slice_content(s).take(pos as int),
            ),
            None => pos > slice_content(s).len(),
        },
{
    s.try_char_to_byte(pos).ok()
}

/// Relies on `From<ropey::RopeSlice> for String`: the slice's characters
/// as an owned string.
#[verifier::external_body]
pub(crate) fn slice_to_string(s: ropey::RopeSlice) -> (r: String)
    ensures
        r@ == slice_content(s),
{
    String::from(s)
}

/// Relies on `PartialEq<ropey::RopeSlice> for ropey::RopeSlice`: equality
/// of the two slices' content.
#[verifier::external_body]
pub(crate) fn slice_eq_slice(a: ropey::RopeSlice, b: ropey::RopeSlice) -> (r: bool)
    ensures
        r == (slice_content(a) == slice_content(b)),
{
    a == b
}

/// Relies on `PartialEq<&str> for ropey::RopeSlice`: equality of the
/// slice's content and the string's characters.
#[verifier::external_body]
pub(crate) fn slice_eq_str(a: ropey::RopeSlice, text: &str) -> (r: bool)
    ensures
        r == (slice_content(a) == text@),
{
    a == text
}

/// Relies on `str::starts_with` with a string pattern: whether the
/// pattern's characters are a prefix of the text's.
#[verifier::external_body]
pub(crate) fn str_starts_with(text: &str, pattern: &str) -> (r: bool)
    ensures
        r == pattern@.is_prefix_of(text@),
{
    text.starts_with(pattern)
}

/// Relies on `str::ends_with` with a string pattern: whether the
/// pattern's characters are a suffix of the text's.
#[verifier::external_body]
pub(crate) fn str_ends_with(text: &str, pattern: &str) -> (r: bool)
    ensures
        r == pattern@.is_suffix_of(text@),
{
    text.ends_with(pattern)
}

/// Relies on `str::trim_start`: the text with the characters of its
/// leading whitespace run removed.
#[verifier::external_body]
pub(crate) fn str_trim_start<'a>(text: &'a str) -> (r: &'a str)
    ensures
        r@ == trim_start_content(text@),
{
    text.trim_start()
}

/// Relies on `PartialEq for str`: equality of the two texts' characters.
#[verifier::external_body]
pub(crate) fn str_eq(a: &str, b: &str) -> (r: bool)
    ensures
        r == (a@ == b@),
{
    a == b
}

/// Relies on `char::is_whitespace`: the Unicode `White_Space` property,
/// a function of the character alone.
pub assume_specification[ char::is_whitespace ](c: char) -> (r: bool)
    ensures
        r == unicode_whitespace(c),
;

} // verus!
