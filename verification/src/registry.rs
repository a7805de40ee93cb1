//! The binding surface: the fixed, named set of operations a host can
//! invoke, each a pure forwarding to one view operation.
//!
//! The host hands over already-typed arguments; [`dispatch`] calls the
//! matching method and returns the plain result. [`rope_module`] is the
//! table itself — name against operation, in the order the interface
//! fixes — and [`lookup`] maps one exposed name to its operation.

use vstd::prelude::*;

use crate::buffer::str_eq;
use crate::model::{
    utf8_len, line_count, trim_start_content, whitespace_prefix_len, RangeError, SliceKind,
};
use crate::view::SteelRopeSlice;

verus! {

/// One operation of the binding surface.
#[derive(Clone, Copy, Debug, PartialEq, Eq, Structural)]
pub enum RopeOp {
    FromString,
    Slice,
    CharToByte,
    ByteSlice,
    Line,
    ToString,
    LenChars,
    GetChar,
    LenLines,
    StartsWith,
    EndsWith,
    TrimStart,
}

/// Which operation an exposed name denotes, if any.
pub open spec fn op_for_name(name: Seq<char>) -> Option<RopeOp> {
    if name == "construct-from-text"@ {
        Some(RopeOp::FromString)
    } else if name == "slice-chars"@ {
        Some(RopeOp::Slice)
    } else if name == "char-to-byte"@ {
        Some(RopeOp::CharToByte)
    } else if name == "slice-bytes"@ {
        Some(RopeOp::ByteSlice)
    } else if name == "slice-line"@ {
        Some(RopeOp::Line)
    } else if name == "view-to-text"@ {
        Some(RopeOp::ToString)
    } else if name == "char-count"@ {
        Some(RopeOp::LenChars)
    } else if name == "char-at"@ {
        Some(RopeOp::GetChar)
    } else if name == "line-count"@ {
        Some(RopeOp::LenLines)
    } else if name == "starts-with?"@ {
        Some(RopeOp::StartsWith)
    } else if name == "ends-with?"@ {
        Some(RopeOp::EndsWith)
    } else if name == "trim-leading"@ {
        Some(RopeOp::TrimStart)
    } else {
        None
    }
}

/// Maps an exposed operation name to the operation it denotes.
pub fn lookup(name: &str) -> (r: Option<RopeOp>)
    ensures
        r == op_for_name(name@),
{
    if str_eq(name, "construct-from-text") {
        Some(RopeOp::FromString)
    } else if str_eq(name, "slice-chars") {
        Some(RopeOp::Slice)
    } else if str_eq(name, "char-to-byte") {
        Some(RopeOp::CharToByte)
    } else if str_eq(name, "slice-bytes") {
        Some(RopeOp::ByteSlice)
    } else if str_eq(name, "slice-line") {
        Some(RopeOp::Line)
    } else if str_eq(name, "view-to-text") {
        Some(RopeOp::ToString)
    } else if str_eq(name, "char-count") {
        Some(RopeOp::LenChars)
    } else if str_eq(name, "char-at") {
        Some(RopeOp::GetChar)
    } else if str_eq(name, "line-count") {
        Some(RopeOp::LenLines)
    } else if str_eq(name, "starts-with?") {
        Some(RopeOp::StartsWith)
    } else if str_eq(name, "ends-with?") {
        Some(RopeOp::EndsWith)
    } else if str_eq(name, "trim-leading") {
        Some(RopeOp::TrimStart)
    } else {
        None
    }
}

/// One row of the binding table: an exposed name and the operation it
/// forwards to.
pub struct Binding {
    pub name: String,
    pub op: RopeOp,
}

/// The whole binding table, in the order the interface fixes.
pub fn rope_module() -> (r: Vec<Binding>)
    ensures
        r@.len() == 12,
        r@[0].name@ == "construct-from-text"@ && r@[0].op == RopeOp::FromString,
        r@[1].name@ == "slice-chars"@ && r@[1].op == RopeOp::Slice,
        r@[2].name@ == "char-to-byte"@ && r@[2].op == RopeOp::CharToByte,
        r@[3].name@ == "slice-bytes"@ && r@[3].op == RopeOp::ByteSlice,
        r@[4].name@ == "slice-line"@ && r@[4].op == RopeOp::Line,
        r@[5].name@ == "view-to-text"@ && r@[5].op == RopeOp::ToString,
        r@[6].name@ == "char-count"@ && r@[6].op == RopeOp::LenChars,
        r@[7].name@ == "char-at"@ && r@[7].op == RopeOp::GetChar,
        r@[8].name@ == "line-count"@ && r@[8].op == RopeOp::LenLines,
        r@[9].name@ == "starts-with?"@ && r@[9].op == RopeOp::StartsWith,
        r@[10].name@ == "ends-with?"@ && r@[10].op == RopeOp::EndsWith,
        r@[11].name@ == "trim-leading"@ && r@[11].op == RopeOp::TrimStart,
{
    let mut table: Vec<Binding> = Vec::new();
    table.push(Binding { name: "construct-from-text".to_owned(), op: RopeOp::FromString });
    table.push(Binding { name: "slice-chars".to_owned(), op: RopeOp::Slice });
    table.push(Binding { name: "char-to-byte".to_owned(), op: RopeOp::CharToByte });
    table.push(Binding { name: "slice-bytes".to_owned(), op: RopeOp::ByteSlice });
    table.push(Binding { name: "slice-line".to_owned(), op: RopeOp::Line });
    table.push(Binding { name: "view-to-text".to_owned(), op: RopeOp::ToString });
    table.push(Binding { name: "char-count".to_owned(), op: RopeOp::LenChars });
    table.push(Binding { name: "char-at".to_owned(), op: RopeOp::GetChar });
    table.push(Binding { name: "line-count".to_owned(), op: RopeOp::LenLines });
    table.push(Binding { name: "starts-with?".to_owned(), op: RopeOp::StartsWith });
    table.push(Binding { name: "ends-with?".to_owned(), op: RopeOp::EndsWith });
    table.push(Binding { name: "trim-leading".to_owned(), op: RopeOp::TrimStart });
    table
}

/// An invocation: the operation together with its already-typed
/// arguments, in the interface's argument order.
pub enum OpRequest {
    ConstructFromText(String),
    SliceChars(SteelRopeSlice, usize, usize),
    CharToByte(SteelRopeSlice, usize),
    SliceBytes(SteelRopeSlice, usize, usize),
    SliceLine(SteelRopeSlice, usize),
    ViewToText(SteelRopeSlice),
    CharCount(SteelRopeSlice),
    CharAt(SteelRopeSlice, usize),
    LineCount(SteelRopeSlice),
    StartsWith(SteelRopeSlice, String),
    EndsWith(SteelRopeSlice, String),
    TrimLeading(SteelRopeSlice),
}

/// What an invocation hands back to the host: a new opaque view handle
/// or a plain value, or the failure a query surfaced.
pub enum OpResponse {
    ViewHandle(SteelRopeSlice),
    Count(usize),
    Text(String),
    Flag(bool),
    CharValue(Option<char>),
    Fail(RangeError),
}

/// Forwards one invocation to the matching view operation; nothing else
/// happens here — no validation, no state.
pub fn dispatch(req: OpRequest) -> (r: OpResponse)
    ensures
        match req {
            OpRequest::ConstructFromText(s) => (r matches OpResponse::ViewHandle(v)
                && v.buffer_chars() == s@ && v.chain() == Seq::<SliceKind>::empty()),
            OpRequest::SliceChars(v, lower, upper) => (r matches OpResponse::ViewHandle(w)
                && w.buffer_chars() == v.buffer_chars() && w.chain() == v.chain().push(
                SliceKind::Normal(lower, upper),
            )),
            OpRequest::CharToByte(v, pos) => match r {
                OpResponse::Count(b) => v.content() matches Some(c) && pos <= c.len() && b
                    == utf8_len(c.take(pos as int)),
                OpResponse::Fail(e) => match e {
                    RangeError::ChainStep(step) => v.content() is None && v.fails_at(step as int),
                    RangeError::CharOffset(p) => p == pos && (v.content() matches Some(c) && pos
                        > c.len()),
                },
                _ => false,
            },
            OpRequest::SliceBytes(v, lower, upper) => (r matches OpResponse::ViewHandle(w)
                && w.buffer_chars() == v.buffer_chars() && w.chain() == v.chain().push(
                SliceKind::Byte(lower, upper),
            )),
            OpRequest::SliceLine(v, index) => (r matches OpResponse::ViewHandle(w)
                && w.buffer_chars() == v.buffer_chars() && w.chain() == v.chain().push(
                SliceKind::Line(index),
            )),
            OpRequest::ViewToText(v) => match r {
                OpResponse::Text(t) => v.content() == Some(t@),
                OpResponse::Fail(e) => v.content() is None && (e matches RangeError::ChainStep(
                    step,
                ) && v.fails_at(step as int)),
                _ => false,
            },
            OpRequest::CharCount(v) => match r {
                OpResponse::Count(n) => v.content() matches Some(c) && n == c.len(),
                OpResponse::Fail(e) => v.content() is None && (e matches RangeError::ChainStep(
                    step,
                ) && v.fails_at(step as int)),
                _ => false,
            },
            OpRequest::CharAt(v, index) => match r {
                OpResponse::CharValue(found) => v.content() matches Some(c) && (match found {
                    Some(ch) => index < c.len() && ch == c[index as int],
                    None => index >= c.len(),
                }),
                OpResponse::Fail(e) => v.content() is None && (e matches RangeError::ChainStep(
                    step,
                ) && v.fails_at(step as int)),
                _ => false,
            },
            OpRequest::LineCount(v) => match r {
                OpResponse::Count(n) => v.content() matches Some(c) && n == line_count(c),
                OpResponse::Fail(e) => v.content() is None && (e matches RangeError::ChainStep(
                    step,
                ) && v.fails_at(step as int)),
                _ => false,
            },
            OpRequest::StartsWith(v, pat) => match r {
                OpResponse::Flag(b) => v.content() matches Some(c) && b == pat@.is_prefix_of(c),
                OpResponse::Fail(e) => v.content() is None && (e matches RangeError::ChainStep(
                    step,
                ) && v.fails_at(step as int)),
                _ => false,
            },
            OpRequest::EndsWith(v, pat) => match r {
                OpResponse::Flag(b) => v.content() matches Some(c) && b == pat@.is_suffix_of(c),
                OpResponse::Fail(e) => v.content() is None && (e matches RangeError::ChainStep(
                    step,
                ) && v.fails_at(step as int)),
                _ => false,
            },
            OpRequest::TrimLeading(v) => match r {
                OpResponse::ViewHandle(w) => v.content() matches Some(c) && ({
                    let wlen = whitespace_prefix_len(c);
                    &&& w.buffer_chars() == v.buffer_chars()
                    &&& if wlen < c.len() {
                        &&& w.chain() == v.chain().push(
                            SliceKind::Normal(wlen as usize, c.len() as usize),
                        )
                        &&& w.content() == Some(trim_start_content(c))
                    } else {
                        w.chain() == v.chain()
                    }
                }),
                OpResponse::Fail(e) => v.content() is None && (e matches RangeError::ChainStep(
                    step,
                ) && v.fails_at(step as int)),
                _ => false,
            },
        },
{
    match req {
        OpRequest::ConstructFromText(s) => OpResponse::ViewHandle(
            SteelRopeSlice::from_string(s.as_str()),
        ),
        OpRequest::SliceChars(v, lower, upper) => OpResponse::ViewHandle(v.slice(lower, upper)),
        OpRequest::CharToByte(v, pos) => match v.char_to_byte(pos) {
            Ok(b) => OpResponse::Count(b),
            Err(e) => OpResponse::Fail(e),
        },
        OpRequest::SliceBytes(v, lower, upper) => OpResponse::ViewHandle(
            v.byte_slice(lower, upper),
        ),
        OpRequest::SliceLine(v, index) => OpResponse::ViewHandle(v.line(index)),
        OpRequest::ViewToText(v) => match v.to_string() {
            Ok(t) => OpResponse::Text(t),
            Err(e) => OpResponse::Fail(e),
        },
        OpRequest::CharCount(v) => match v.len_chars() {
            Ok(n) => OpResponse::Count(n),
            Err(e) => OpResponse::Fail(e),
        },
        OpRequest::CharAt(v, index) => match v.get_char(index) {
            Ok(found) => OpResponse::CharValue(found),
            Err(e) => OpResponse::Fail(e),
        },
        OpRequest::LineCount(v) => match v.len_lines() {
            Ok(n) => OpResponse::Count(n),
            Err(e) => OpResponse::Fail(e),
        },
        OpRequest::StartsWith(v, pat) => match v.starts_with(pat.as_str()) {
            Ok(b) => OpResponse::Flag(b),
            Err(e) => OpResponse::Fail(e),
        },
        OpRequest::EndsWith(v, pat) => match v.ends_with(pat.as_str()) {
            Ok(b) => OpResponse::Flag(b),
            Err(e) => OpResponse::Fail(e),
        },
        OpRequest::TrimLeading(v) => match v.trim_start() {
            Ok(w) => OpResponse::ViewHandle(w),
            Err(e) => OpResponse::Fail(e),
        },
    }
}

} // verus!
