use substring::{
    grapheme_substring, segment_substring, substring, GraphemeSubstring, Substring, UnitBound,
    UnitRange,
};

#[test]
fn two_index_form() {
    assert_eq!(substring("foobar", 2, 5), "oba");
    assert_eq!(substring("foobar", 0, 10), "foobar");
    assert_eq!(substring("foobar", 6, 10), "");
    assert_eq!(substring("foobar", 3, 2), "");
    assert_eq!(substring("foobar", 3, 3), "");
}

#[test]
fn two_index_form_multiple_byte_characters() {
    assert_eq!(substring("fõøbα®", 2, 5), "øbα");
}

#[test]
fn combining_mark_counts_as_own_unit() {
    let s = "a\u{0303}";
    assert_eq!(substring(s, 0, 1), "a");
    assert_eq!(substring(s, 1, 2), "\u{0303}");
}

#[test]
fn empty_string() {
    assert_eq!(substring("", 0, 0), "");
    assert_eq!(substring("", 0, 5), "");
    assert_eq!("".substring(UnitRange::full()), "");
    assert_eq!(grapheme_substring("", 0, 5), "");
    assert_eq!("".grapheme_substring(UnitRange::full()), "");
}

#[test]
fn grapheme_two_index_form() {
    let s = "fooba\u{0303}r";
    assert_eq!(grapheme_substring(s, 3, 5), "ba\u{0303}");
    assert_eq!(substring(s, 3, 5), "ba");
}

#[test]
fn grapheme_cluster_selection() {
    let s = "a\u{310}e\u{301}o\u{308}\u{332}";
    assert_eq!(grapheme_substring(s, 1, 2), "e\u{301}");
    assert_eq!(grapheme_substring(s, 0, 3), s);
    assert_eq!(grapheme_substring(s, 2, 10), "o\u{308}\u{332}");
}

#[test]
fn exclusive_start_at_last_unit() {
    assert_eq!("foobar".substring(UnitRange::after(5)), "");
    assert_eq!("foobar".grapheme_substring(UnitRange::after(5)), "");
}

#[test]
fn inclusive_start_saturated() {
    let index = UnitRange { start: UnitBound::Inclusive(usize::MAX), end: UnitBound::Unbounded };
    assert_eq!("foobar".substring(index), "");
    assert_eq!("foobar".grapheme_substring(index), "");
}

#[test]
fn explicit_segmentation() {
    let s = "foobar";
    let segments: Vec<&str> = vec!["foo", "ba", "r"];
    assert_eq!(segment_substring(s, &segments, 1, 2), "ba");
    assert_eq!(segment_substring(s, &segments, 0, 3), "foobar");
    assert_eq!(segment_substring(s, &segments, 1, 10), "bar");
    assert_eq!(segment_substring(s, &segments, 3, 5), "");
    assert_eq!(segment_substring(s, &segments, 2, 1), "");
}

#[test]
fn exclusive_end_range() {
    let index = UnitRange { start: UnitBound::Exclusive(1), end: UnitBound::Inclusive(4) };
    assert_eq!("foobar".substring(index), "oba");
}
