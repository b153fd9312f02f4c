//! Range bounds counted in semantic units, and their normalization to a
//! canonical `(start, end)` pair of unit positions.

use vstd::prelude::*;

verus! {

/// One end of a unit-position range.
///
/// A bound is either absent, or a unit position that is itself part of the
/// range (inclusive) or just outside it (exclusive).
#[derive(Clone, Copy, Debug)]
pub enum UnitBound {
    /// No bound: the range extends to the corresponding end of the string.
    Unbounded,
    /// The position is part of the range.
    Inclusive(usize),
    /// The position lies just outside the range.
    Exclusive(usize),
}

/// A range of unit positions, with independently inclusive, exclusive, or
/// unbounded start and end.
#[derive(Clone, Copy, Debug)]
pub struct UnitRange {
    /// Where the range begins.
    pub start: UnitBound,
    /// Where the range ends.
    pub end: UnitBound,
}

impl UnitRange {
    /// The range from `start_index` (inclusive) to `end_index` (exclusive).
    pub fn bounded(start_index: usize, end_index: usize) -> (r: UnitRange)
        ensures
            r == (UnitRange {
                start: UnitBound::Inclusive(start_index),
                end: UnitBound::Exclusive(end_index),
            }),
    {
        UnitRange { start: UnitBound::Inclusive(start_index), end: UnitBound::Exclusive(end_index) }
    }

    /// The fully unbounded range: the whole string.
    pub fn full() -> (r: UnitRange)
        ensures
            r == (UnitRange { start: UnitBound::Unbounded, end: UnitBound::Unbounded }),
    {
        UnitRange { start: UnitBound::Unbounded, end: UnitBound::Unbounded }
    }

    /// The range from `start_index` (inclusive) to the end of the string.
    pub fn from(start_index: usize) -> (r: UnitRange)
        ensures
            r == (UnitRange { start: UnitBound::Inclusive(start_index), end: UnitBound::Unbounded }),
    {
        UnitRange { start: UnitBound::Inclusive(start_index), end: UnitBound::Unbounded }
    }

    /// The range from just after `start_index` (exclusive) to the end of the
    /// string.
    pub fn after(start_index: usize) -> (r: UnitRange)
        ensures
            r == (UnitRange { start: UnitBound::Exclusive(start_index), end: UnitBound::Unbounded }),
    {
        UnitRange { start: UnitBound::Exclusive(start_index), end: UnitBound::Unbounded }
    }

    /// The range from the start of the string to `end_index` (exclusive).
    pub fn to(end_index: usize) -> (r: UnitRange)
        ensures
            r == (UnitRange { start: UnitBound::Unbounded, end: UnitBound::Exclusive(end_index) }),
    {
        UnitRange { start: UnitBound::Unbounded, end: UnitBound::Exclusive(end_index) }
    }

    /// The range from the start of the string to `end_index` (inclusive).
    pub fn to_inclusive(end_index: usize) -> (r: UnitRange)
        ensures
            r == (UnitRange { start: UnitBound::Unbounded, end: UnitBound::Inclusive(end_index) }),
    {
        UnitRange { start: UnitBound::Unbounded, end: UnitBound::Inclusive(end_index) }
    }
}

/// The canonical inclusive start position of a bound: an exclusive start at
/// `v` begins at `v + 1`, saturating at the largest representable position
/// rather than wrapping.
pub open spec fn start_units(bound: UnitBound) -> int {
    match bound {
        UnitBound::Unbounded => 0,
        UnitBound::Inclusive(v) => v as int,
        UnitBound::Exclusive(v) => if v == usize::MAX {
            usize::MAX as int
        } else {
            v as int + 1
        },
    }
}

/// The canonical exclusive end position of a bound: an inclusive end at `v`
/// ends before `v + 1`, saturating at the largest representable position
/// rather than wrapping; an unbounded end ends at the string's unit count.
pub open spec fn end_units(bound: UnitBound, unit_count: int) -> int {
    match bound {
        UnitBound::Unbounded => unit_count,
        UnitBound::Inclusive(v) => if v == usize::MAX {
            usize::MAX as int
        } else {
            v as int + 1
        },
        UnitBound::Exclusive(v) => v as int,
    }
}

/// Normalizes a start bound to its canonical inclusive position.
pub fn normalize_start(bound: UnitBound) -> (start: usize)
    ensures
        start as int == start_units(bound),
{
    match bound {
        UnitBound::Unbounded => 0,
        UnitBound::Inclusive(v) => v,
        UnitBound::Exclusive(v) => if v == usize::MAX {
            usize::MAX
        } else {
            v + 1
        },
    }
}

/// Normalizes an end bound to its canonical exclusive position, given the
/// string's total unit count for the unbounded case.
pub fn normalize_end(bound: UnitBound, unit_count: usize) -> (end: usize)
    ensures
        end as int == end_units(bound, unit_count as int),
{
    match bound {
        UnitBound::Unbounded => unit_count,
        UnitBound::Inclusive(v) => if v == usize::MAX {
            usize::MAX
        } else {
            v + 1
        },
        UnitBound::Exclusive(v) => v,
    }
}

} // verus!
