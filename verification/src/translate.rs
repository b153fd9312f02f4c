//! The index translator for scalar-value units: converts a range of
//! character positions into a slice of the string, clamping out-of-range
//! positions to the end of the string and mapping inverted or empty ranges
//! to the empty slice.

use vstd::prelude::*;

use crate::bounds::{end_units, normalize_end, normalize_start, start_units, UnitBound, UnitRange};
use crate::clamped;

verus! {

/// The unit-substring of `s` from position `start` (inclusive) to `end`
/// (exclusive), both counted in units of one character. An inverted or empty
/// range selects nothing; positions beyond the end of `s` collapse to its
/// end.
pub open spec fn unit_slice(s: Seq<char>, start: int, end: int) -> Seq<char> {
    if end <= start {
        Seq::empty()
    } else {
        s.subrange(clamped(start, s.len() as int), clamped(end, s.len() as int))
    }
}

/// The unit-substring of `s` selected by a [`UnitRange`], after its bounds
/// are normalized to canonical character positions.
pub open spec fn range_slice(s: Seq<char>, index: UnitRange) -> Seq<char> {
    unit_slice(s, start_units(index.start), end_units(index.end, s.len() as int))
}

/// The slice of `s` from character position `start_index` (inclusive) to
/// `end_index` (exclusive).
///
/// Every pair of positions yields a defined result: an inverted or empty
/// range gives the empty slice without walking the string, and positions at
/// or past the end of `s` collapse to its end.
pub fn substring<'a>(s: &'a str, start_index: usize, end_index: usize) -> (r: &'a str)
    ensures
        r@ == unit_slice(s@, start_index as int, end_index as int),
{
    if end_index <= start_index {
        proof {
            reveal_strlit("");
            assert(""@ =~= Seq::<char>::empty());
        }
        return "";
    }
    let unit_count: usize = s.unicode_len();
    let start: usize = if start_index > unit_count {
        unit_count
    } else {
        start_index
    };
    let end: usize = if end_index > unit_count {
        unit_count
    } else {
        end_index
    };
    s.substring_char(start, end)
}

/// Provides a [`substring`](Substring::substring) method on string types,
/// counting positions in Unicode scalar values.
pub trait Substring: View<V = Seq<char>> {
    /// The slice of the characters within the unit-position range `index`.
    ///
    /// The range is a character range, not a byte range. Every range yields
    /// a defined result: inverted and empty ranges give the empty slice, and
    /// positions beyond the end of the string collapse to its end.
    fn substring<'a>(&'a self, index: UnitRange) -> (r: &'a str)
        ensures
            r@ == range_slice(self.view(), index),
    ;
}

impl Substring for str {
    fn substring<'a>(&'a self, index: UnitRange) -> (r: &'a str) {
        let start = normalize_start(index.start);
        let unit_count = self.unicode_len();
        let end = normalize_end(index.end, unit_count);
        substring(self, start, end)
    }
}

/// Provides a [`char_substring`](CharSubstring::char_substring) method on
/// string types: the same operation as [`Substring::substring`], under the
/// name that makes the counting unit explicit.
pub trait CharSubstring: View<V = Seq<char>> {
    /// The slice of the characters within the unit-position range `index`;
    /// identical to [`Substring::substring`].
    fn char_substring<'a>(&'a self, index: UnitRange) -> (r: &'a str)
        ensures
            r@ == range_slice(self.view(), index),
    ;
}

impl CharSubstring for str {
    fn char_substring<'a>(&'a self, index: UnitRange) -> (r: &'a str) {
        Substring::substring(self, index)
    }
}

/// A range that lies fully inside the string selects exactly the units from
/// `start` up to `end`: no clamping takes place.
pub proof fn lemma_slice_in_bounds(s: Seq<char>, start: int, end: int)
    requires
        0 <= start <= end <= s.len(),
    ensures
        unit_slice(s, start, end) == s.subrange(start, end),
{
    if end <= start {
        assert(unit_slice(s, start, end) =~= s.subrange(start, end));
    }
}

/// Round trip: the range from position zero to the string's unit count, and
/// likewise the fully unbounded range, select the whole string.
pub proof fn lemma_slice_round_trip(s: Seq<char>)
    ensures
        unit_slice(s, 0, s.len() as int) == s,
        range_slice(s, UnitRange { start: UnitBound::Unbounded, end: UnitBound::Unbounded }) == s,
{
    assert(unit_slice(s, 0, s.len() as int) =~= s);
}

/// Inversion: a range whose end lies before its start selects nothing.
pub proof fn lemma_slice_inverted(s: Seq<char>, start: int, end: int)
    requires
        end < start,
    ensures
        unit_slice(s, start, end) == Seq::<char>::empty(),
{
}

/// Equality: a range whose start and end coincide selects nothing.
pub proof fn lemma_slice_equal(s: Seq<char>, position: int)
    ensures
        unit_slice(s, position, position) == Seq::<char>::empty(),
{
}

/// Saturation: a range that starts at or past the string's unit count
/// selects nothing, whatever its end.
pub proof fn lemma_slice_start_saturated(s: Seq<char>, start: int, end: int)
    requires
        start >= s.len(),
    ensures
        unit_slice(s, start, end) == Seq::<char>::empty(),
{
    if end > start {
        assert(unit_slice(s, start, end) =~= Seq::<char>::empty());
    }
}

/// Boundary: an exclusive start at the largest representable position
/// saturates instead of wrapping, so the range selects nothing, whatever
/// its end bound.
pub proof fn lemma_slice_exclusive_start_max(s: Seq<char>, end: UnitBound)
    requires
        s.len() <= usize::MAX,
    ensures
        range_slice(s, UnitRange { start: UnitBound::Exclusive(usize::MAX), end }) == Seq::<
            char,
        >::empty(),
{
}

} // verus!
