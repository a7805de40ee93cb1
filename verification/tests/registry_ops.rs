use rope_view::model::RangeError;
use rope_view::registry::{dispatch, lookup, rope_module, OpRequest, OpResponse, RopeOp};
use rope_view::view::SteelRopeSlice;

#[test]
fn binding_table_names_and_order() {
    let table = rope_module();
    let expected = [
        ("construct-from-text", RopeOp::FromString),
        ("slice-chars", RopeOp::Slice),
        ("char-to-byte", RopeOp::CharToByte),
        ("slice-bytes", RopeOp::ByteSlice),
        ("slice-line", RopeOp::Line),
        ("view-to-text", RopeOp::ToString),
        ("char-count", RopeOp::LenChars),
        ("char-at", RopeOp::GetChar),
        ("line-count", RopeOp::LenLines),
        ("starts-with?", RopeOp::StartsWith),
        ("ends-with?", RopeOp::EndsWith),
        ("trim-leading", RopeOp::TrimStart),
    ];
    assert_eq!(table.len(), expected.len());
    for (row, (name, op)) in table.iter().zip(expected.iter()) {
        assert_eq!(row.name.as_str(), *name);
        assert_eq!(row.op, *op);
    }
}

#[test]
fn lookup_maps_each_exposed_name() {
    for row in rope_module() {
        assert_eq!(lookup(row.name.as_str()), Some(row.op));
    }
    assert_eq!(lookup("no-such-operation"), None);
    assert_eq!(lookup(""), None);
}

#[test]
fn dispatch_builds_and_reads_views() {
    let v = match dispatch(OpRequest::ConstructFromText("foobar".to_owned())) {
        OpResponse::ViewHandle(v) => v,
        _ => panic!("construction must hand back a view"),
    };
    let sliced = match dispatch(OpRequest::SliceChars(v, 0, 3)) {
        OpResponse::ViewHandle(v) => v,
        _ => panic!("slicing must hand back a view"),
    };
    match dispatch(OpRequest::ViewToText(sliced)) {
        OpResponse::Text(t) => assert_eq!(t, "foo"),
        _ => panic!("stringifying must hand back text"),
    }
}

#[test]
fn dispatch_returns_plain_scalars() {
    let make = || SteelRopeSlice::from_string("one\ntwo");
    match dispatch(OpRequest::CharCount(make())) {
        OpResponse::Count(n) => assert_eq!(n, 7),
        _ => panic!("char-count must hand back a count"),
    }
    match dispatch(OpRequest::LineCount(make())) {
        OpResponse::Count(n) => assert_eq!(n, 2),
        _ => panic!("line-count must hand back a count"),
    }
    match dispatch(OpRequest::CharAt(make(), 1)) {
        OpResponse::CharValue(c) => assert_eq!(c, Some('n')),
        _ => panic!("char-at must hand back a character"),
    }
    match dispatch(OpRequest::CharAt(make(), 50)) {
        OpResponse::CharValue(c) => assert_eq!(c, None),
        _ => panic!("char-at past the end must hand back absence"),
    }
    match dispatch(OpRequest::CharToByte(make(), 4)) {
        OpResponse::Count(b) => assert_eq!(b, 4),
        _ => panic!("char-to-byte must hand back an offset"),
    }
    match dispatch(OpRequest::StartsWith(make(), "one".to_owned())) {
        OpResponse::Flag(b) => assert!(b),
        _ => panic!("starts-with? must hand back a flag"),
    }
    match dispatch(OpRequest::EndsWith(make(), "two".to_owned())) {
        OpResponse::Flag(b) => assert!(b),
        _ => panic!("ends-with? must hand back a flag"),
    }
}

#[test]
fn dispatch_surfaces_range_failures() {
    let bad = SteelRopeSlice::from_string("ab").slice(1, 9);
    match dispatch(OpRequest::ViewToText(bad)) {
        OpResponse::Fail(e) => assert_eq!(e, RangeError::ChainStep(0)),
        _ => panic!("an unresolvable view must fail"),
    }
    let short = SteelRopeSlice::from_string("ab");
    match dispatch(OpRequest::CharToByte(short, 3)) {
        OpResponse::Fail(e) => assert_eq!(e, RangeError::CharOffset(3)),
        _ => panic!("an oversized offset must fail"),
    }
}

#[test]
fn dispatch_trim_leading() {
    let all_space = SteelRopeSlice::from_string("  ");
    match dispatch(OpRequest::TrimLeading(all_space)) {
        OpResponse::ViewHandle(v) => assert_eq!(v.to_string().unwrap(), "  "),
        _ => panic!("trim-leading must hand back a view"),
    }
    let mixed = SteelRopeSlice::from_string(" x");
    match dispatch(OpRequest::TrimLeading(mixed)) {
        OpResponse::ViewHandle(v) => assert_eq!(v.to_string().unwrap(), "x"),
        _ => panic!("trim-leading must hand back a view"),
    }
}
