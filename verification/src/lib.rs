//! Substring operations on string types, indexed by semantic unit.
//!
//! A position in a `&str` can be counted in bytes, in Unicode scalar values
//! ("characters"), or in extended grapheme clusters (user-perceived
//! characters). Rust's built-in slicing works on byte offsets and panics on
//! offsets that fall inside a multi-byte character. The traits here slice by
//! unit position instead: every range — inverted, empty, or far out of
//! bounds — yields a well-defined borrowed slice, never a panic.
//!
//! The counting unit is chosen by the trait: [`Substring`] and
//! [`CharSubstring`] count Unicode scalar values, [`GraphemeSubstring`]
//! counts extended grapheme clusters. All three take a [`UnitRange`], whose
//! start and end may independently be inclusive, exclusive, or unbounded.
//! The free functions [`substring`] and [`grapheme_substring`] offer the
//! plain two-index form, with an inclusive start and an exclusive end.

use vstd::prelude::*;

mod bounds;
mod grapheme;
mod translate;

pub use bounds::{UnitBound, UnitRange};
pub use grapheme::{grapheme_substring, segment_substring, GraphemeSubstring};
pub use translate::{substring, CharSubstring, Substring};

verus! {

/// Clamps a unit position to the string's total unit count: positions beyond
/// the end of the string collapse to its end.
pub open spec fn clamped(position: int, unit_count: int) -> int {
    if position > unit_count {
        unit_count
    } else {
        position
    }
}

} // verus!
