use rope_view::model::RangeError;
use rope_view::view::SteelRopeSlice;

#[test]
fn round_trip_construction() {
    let v = SteelRopeSlice::from_string("hello world");
    assert_eq!(v.to_string().unwrap(), "hello world");
    let empty = SteelRopeSlice::from_string("");
    assert_eq!(empty.to_string().unwrap(), "");
    let accented = SteelRopeSlice::from_string("héllo wörld");
    assert_eq!(accented.to_string().unwrap(), "héllo wörld");
}

#[test]
fn from_existing_buffer() {
    let rope = ropey::Rope::from_str("shared text");
    let v = SteelRopeSlice::new(rope);
    assert_eq!(v.to_string().unwrap(), "shared text");
    assert_eq!(v.len_chars().unwrap(), 11);
}

#[test]
fn chain_associativity_of_content() {
    // Twenty characters: narrowing twice equals the one composed range.
    let text = "abcdefghijklmnopqrst";
    let twice = SteelRopeSlice::from_string(text).slice(2, 10).slice(1, 5);
    let once = SteelRopeSlice::from_string(text).slice(3, 7);
    assert_eq!(twice.to_string().unwrap(), "defg");
    assert_eq!(once.to_string().unwrap(), "defg");
    assert!(twice.equals_view(&once));
}

#[test]
fn append_only_immutability() {
    let v1 = SteelRopeSlice::from_string("abcdef");
    let v2 = v1.clone().slice(1, 3);
    // The source still resolves to its original content.
    assert_eq!(v1.to_string().unwrap(), "abcdef");
    assert_eq!(v2.to_string().unwrap(), "bc");
    // And the two stay independent afterwards as well.
    let v3 = v2.clone().slice(0, 1);
    assert_eq!(v2.to_string().unwrap(), "bc");
    assert_eq!(v3.to_string().unwrap(), "b");
}

#[test]
fn equality_by_content_not_identity() {
    let sliced = SteelRopeSlice::from_string("ab").slice(0, 1);
    let direct = SteelRopeSlice::from_string("a");
    assert!(sliced.equals_view(&direct));
    assert!(direct.equals_view(&sliced));
    assert!(!SteelRopeSlice::from_string("ab").equals_view(&SteelRopeSlice::from_string("ba")));
    assert!(sliced.equals_text("a"));
    assert!(!sliced.equals_text("ab"));
}

#[test]
fn unresolvable_view_equals_nothing() {
    let bad = SteelRopeSlice::from_string("ab").slice(0, 5);
    let other_bad = SteelRopeSlice::from_string("ab").slice(0, 5);
    assert!(!bad.equals_view(&other_bad));
    assert!(!bad.equals_text("ab"));
}

#[test]
fn soft_fail_char_at() {
    let v = SteelRopeSlice::from_string("hello");
    assert_eq!(v.get_char(1).unwrap(), Some('e'));
    assert_eq!(v.get_char(4).unwrap(), Some('o'));
    // At or past the character count: absent, never an error.
    assert_eq!(v.get_char(5).unwrap(), None);
    assert_eq!(v.get_char(100).unwrap(), None);
}

#[test]
fn hard_fail_at_resolution_not_at_append() {
    // Appending the oversized range succeeds; the failure comes only when
    // a query resolves the chain.
    let v = SteelRopeSlice::from_string("abcde").slice(0, 100);
    assert_eq!(v.char_to_byte(0), Err(RangeError::ChainStep(0)));
    assert!(v.to_string().is_err());
    assert!(v.len_chars().is_err());
    assert!(v.len_lines().is_err());
    assert!(v.get_char(0).is_err());
    assert!(v.starts_with("a").is_err());
}

#[test]
fn failing_step_is_reported_by_position() {
    let v = SteelRopeSlice::from_string("abcdef").slice(1, 5).slice(2, 9);
    assert_eq!(v.to_string().unwrap_err(), RangeError::ChainStep(1));
}

#[test]
fn char_to_byte_counts_utf8_bytes() {
    let v = SteelRopeSlice::from_string("héllo");
    assert_eq!(v.char_to_byte(0), Ok(0));
    assert_eq!(v.char_to_byte(1), Ok(1));
    // The accented character takes two bytes.
    assert_eq!(v.char_to_byte(2), Ok(3));
    assert_eq!(v.char_to_byte(5), Ok(6));
    assert_eq!(v.char_to_byte(6), Err(RangeError::CharOffset(6)));
}

#[test]
fn byte_slice_by_content() {
    let v = SteelRopeSlice::from_string("foobar").byte_slice(0, 3);
    assert_eq!(v.to_string().unwrap(), "foo");
    assert_eq!(v.len_chars().unwrap(), 3);
}

#[test]
fn byte_slice_must_hit_char_boundaries() {
    // 'é' spans bytes 1..3: a bound inside it fails at resolution.
    let v = SteelRopeSlice::from_string("héllo").byte_slice(0, 2);
    assert_eq!(v.to_string().unwrap_err(), RangeError::ChainStep(0));
    let ok = SteelRopeSlice::from_string("héllo").byte_slice(0, 3);
    assert_eq!(ok.to_string().unwrap(), "hé");
}

#[test]
fn prefix_and_suffix_tests() {
    assert!(SteelRopeSlice::from_string("foobar")
        .byte_slice(0, 3)
        .starts_with("foo")
        .unwrap());
    assert!(SteelRopeSlice::from_string("foobar").ends_with("bar").unwrap());
    assert!(!SteelRopeSlice::from_string("foobar").starts_with("bar").unwrap());
    assert!(!SteelRopeSlice::from_string("foobar")
        .byte_slice(0, 3)
        .ends_with("bar")
        .unwrap());
}

#[test]
fn line_queries() {
    let v = SteelRopeSlice::from_string("one\ntwo\nthree");
    assert_eq!(v.len_lines().unwrap(), 3);
    assert_eq!(v.clone().line(0).to_string().unwrap(), "one\n");
    assert_eq!(v.clone().line(1).to_string().unwrap(), "two\n");
    assert_eq!(v.clone().line(2).to_string().unwrap(), "three");
    assert_eq!(
        v.clone().line(3).to_string().unwrap_err(),
        RangeError::ChainStep(0)
    );
}

#[test]
fn trailing_line_break_makes_an_empty_last_line() {
    let v = SteelRopeSlice::from_string("a\n");
    assert_eq!(v.len_lines().unwrap(), 2);
    assert_eq!(v.clone().line(0).to_string().unwrap(), "a\n");
    assert_eq!(v.clone().line(1).to_string().unwrap(), "");
}

#[test]
fn trim_start_leaves_all_whitespace_unchanged() {
    let v = SteelRopeSlice::from_string("   ").trim_start().unwrap();
    assert_eq!(v.to_string().unwrap(), "   ");
    let empty = SteelRopeSlice::from_string("").trim_start().unwrap();
    assert_eq!(empty.to_string().unwrap(), "");
}

#[test]
fn trim_start_drops_leading_whitespace() {
    let v = SteelRopeSlice::from_string("  hello world").trim_start().unwrap();
    assert_eq!(v.to_string().unwrap(), "hello world");
    // Content with no leading whitespace stays what it was.
    let w = SteelRopeSlice::from_string("hello").trim_start().unwrap();
    assert_eq!(w.to_string().unwrap(), "hello");
    // The trimming is one more pending range, applied lazily like any
    // other: narrowing afterwards works on the trimmed content.
    let x = SteelRopeSlice::from_string("\t hi there")
        .trim_start()
        .unwrap()
        .slice(0, 2);
    assert_eq!(x.to_string().unwrap(), "hi");
}

#[test]
fn trimmed_starts_with_ignores_leading_whitespace() {
    let v = SteelRopeSlice::from_string("  hello");
    assert!(v.trimmed_starts_with("hell").unwrap());
    assert!(!v.trimmed_starts_with("  h").unwrap());
    // The chain itself is untouched by the query.
    assert_eq!(v.to_string().unwrap(), "  hello");
    assert!(SteelRopeSlice::from_string("   ").trimmed_starts_with("").unwrap());
    assert!(!SteelRopeSlice::from_string("   ").trimmed_starts_with("x").unwrap());
}

#[test]
fn mixed_chain_of_all_three_kinds() {
    let v = SteelRopeSlice::from_string("alpha\nbeta\ngamma")
        .line(1)
        .byte_slice(0, 4)
        .slice(1, 3);
    assert_eq!(v.to_string().unwrap(), "et");
}

#[test]
fn inverted_bounds_fail_at_resolution() {
    let v = SteelRopeSlice::from_string("abc").slice(2, 1);
    assert_eq!(v.to_string().unwrap_err(), RangeError::ChainStep(0));
    let w = SteelRopeSlice::from_string("abc").byte_slice(2, 1);
    assert_eq!(w.to_string().unwrap_err(), RangeError::ChainStep(0));
}

#[test]
fn empty_content_queries() {
    let v = SteelRopeSlice::from_string("");
    assert_eq!(v.len_chars().unwrap(), 0);
    assert_eq!(v.len_lines().unwrap(), 1);
    assert_eq!(v.get_char(0).unwrap(), None);
    assert_eq!(v.char_to_byte(0), Ok(0));
    assert_eq!(v.clone().line(0).to_string().unwrap(), "");
    assert!(v.starts_with("").unwrap());
    assert!(v.ends_with("").unwrap());
    assert!(!v.starts_with("a").unwrap());
}

#[test]
fn empty_char_range_is_allowed() {
    let v = SteelRopeSlice::from_string("abc").slice(1, 1);
    assert_eq!(v.to_string().unwrap(), "");
    assert_eq!(v.len_chars().unwrap(), 0);
}

#[test]
fn char_count_after_narrowing() {
    let v = SteelRopeSlice::from_string("héllo wörld").slice(6, 11);
    assert_eq!(v.len_chars().unwrap(), 5);
    assert_eq!(v.to_string().unwrap(), "wörld");
    assert_eq!(v.char_to_byte(2), Ok(3));
}
