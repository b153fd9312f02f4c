use substring::{Substring, UnitRange};

#[test]
fn lib_test_substring() {
    assert_eq!("foobar".substring(UnitRange::bounded(0, 3)), "foo");
}

#[test]
fn lib_test_out_of_bounds() {
    assert_eq!("foobar".substring(UnitRange::bounded(0, 10)), "foobar");
    assert_eq!("foobar".substring(UnitRange::bounded(6, 10)), "");
}

#[test]
fn lib_test_start_less_than_end() {
    assert_eq!("foobar".substring(UnitRange::bounded(3, 2)), "");
}

#[test]
fn lib_test_start_and_end_equal() {
    assert_eq!("foobar".substring(UnitRange::bounded(3, 3)), "");
}

#[test]
fn lib_test_multiple_byte_characters() {
    assert_eq!("fõøbα®".substring(UnitRange::bounded(2, 5)), "øbα");
}

#[test]
fn lib_test_unbounded() {
    assert_eq!("foobar".substring(UnitRange::full()), "foobar");
}

#[test]
fn lib_test_unbounded_start() {
    assert_eq!("foobar".substring(UnitRange::to(3)), "foo");
}

#[test]
fn lib_test_unbounded_end() {
    assert_eq!("foobar".substring(UnitRange::from(3)), "bar");
}

#[test]
fn lib_test_exclusive_start() {
    assert_eq!("foobar".substring(UnitRange::after(3)), "ar");
}

#[test]
fn lib_test_exclusive_start_max() {
    assert_eq!("foobar".substring(UnitRange::after(usize::MAX)), "");
}

#[test]
fn lib_test_inclusive_end() {
    assert_eq!("foobar".substring(UnitRange::to_inclusive(3)), "foob");
}

#[test]
fn lib_test_inclusive_end_max() {
    assert_eq!("foobar".substring(UnitRange::to_inclusive(usize::MAX)), "foobar");
}
