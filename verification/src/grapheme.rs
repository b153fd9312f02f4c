//! The index translator for grapheme-cluster units: the same range policy as
//! the character form, but positions count extended grapheme clusters
//! (user-perceived characters), as divided by the `unicode-segmentation`
//! crate.
//!
//! The translator itself, [`segment_substring`], is unit-agnostic: it works
//! over any ordered decomposition of the string into units, handed to it as
//! an explicit sequence of segments. A cluster range is translated into a
//! character range by walking that sequence once and summing segment
//! lengths, so the slice is always cut on segment boundaries.

use unicode_segmentation::UnicodeSegmentation;
use vstd::prelude::*;
use vstd::seq_lib::lemma_flatten_concat;

use crate::bounds::{end_units, normalize_end, normalize_start, start_units, UnitBound, UnitRange};
use crate::clamped;

verus! {

/// The extended grapheme clusters of a string, in order. What the division
/// is takes the full segmentation rules to state; the name stands for it.
pub uninterp spec fn grapheme_segments(s: Seq<char>) -> Seq<Seq<char>>;

/// Relies on unicode_segmentation::UnicodeSegmentation::graphemes: splits a
/// string into its extended grapheme clusters, in order. The division
/// depends on the string's characters alone, and the clusters concatenate
/// back to the string.
#[verifier::external_body]
fn split_graphemes<'a>(s: &'a str) -> (clusters: Vec<&'a str>)
    ensures
        clusters@.map_values(|g: &'a str| g@) == grapheme_segments(s@),
        clusters@.map_values(|g: &'a str| g@).flatten() == s@,
{
    UnicodeSegmentation::graphemes(s, true).collect()
}

/// The unit-substring of a segmented string from segment position `start`
/// (inclusive) to `end` (exclusive): the segments within that range,
/// concatenated. An inverted or empty range selects nothing; positions
/// beyond the last segment collapse to the end.
pub open spec fn segment_slice(segments: Seq<Seq<char>>, start: int, end: int) -> Seq<char> {
    if end <= start {
        Seq::empty()
    } else {
        segments.subrange(
            clamped(start, segments.len() as int),
            clamped(end, segments.len() as int),
        ).flatten()
    }
}

/// The grapheme-substring of `s` from cluster position `start` (inclusive)
/// to `end` (exclusive).
pub open spec fn grapheme_slice(s: Seq<char>, start: int, end: int) -> Seq<char> {
    segment_slice(grapheme_segments(s), start, end)
}

/// The grapheme-substring of `s` selected by a [`UnitRange`], after its
/// bounds are normalized to canonical cluster positions.
pub open spec fn grapheme_range_slice(s: Seq<char>, index: UnitRange) -> Seq<char> {
    grapheme_slice(
        s,
        start_units(index.start),
        end_units(index.end, grapheme_segments(s).len() as int),
    )
}

/// A sequence of segments flattens to the flattening of any front part
/// followed by the flattening of the rest.
proof fn lemma_flatten_split(segments: Seq<Seq<char>>, k: int)
    requires
        0 <= k <= segments.len(),
    ensures
        segments.flatten() == segments.take(k).flatten() + segments.skip(k).flatten(),
{
    assert(segments =~= segments.take(k) + segments.skip(k));
    lemma_flatten_concat(segments.take(k), segments.skip(k));
}

/// Taking one segment more appends exactly that segment to the flattening.
proof fn lemma_flatten_take_succ(segments: Seq<Seq<char>>, k: int)
    requires
        0 <= k < segments.len(),
    ensures
        segments.take(k + 1).flatten() == segments.take(k).flatten() + segments[k],
{
    assert(segments.take(k + 1) =~= segments.take(k).push(segments[k]));
    segments.take(k).lemma_flatten_push(segments[k]);
}

/// The slice of `s` from unit position `start_index` (inclusive) to
/// `end_index` (exclusive), where the units are given explicitly: `segments`
/// is the ordered decomposition of `s` into units, and must concatenate back
/// to `s`.
///
/// The segment sequence is walked once from the front; both cut points fall
/// on segment boundaries by construction.
pub fn segment_substring<'a>(
    s: &'a str,
    segments: &Vec<&'a str>,
    start_index: usize,
    end_index: usize,
) -> (r: &'a str)
    requires
        segments@.map_values(|g: &'a str| g@).flatten() == s@,
    ensures
        r@ == segment_slice(segments@.map_values(|g: &'a str| g@), start_index as int, end_index as int),
{
    if end_index <= start_index {
        proof {
            reveal_strlit("");
            assert(""@ =~= Seq::<char>::empty());
        }
        return "";
    }
    let segment_count: usize = segments.len();
    let start: usize = if start_index > segment_count {
        segment_count
    } else {
        start_index
    };
    let end: usize = if end_index > segment_count {
        segment_count
    } else {
        end_index
    };
    let total: usize = s.unicode_len();
    let ghost segs: Seq<Seq<char>> = segments@.map_values(|g: &'a str| g@);

    let mut char_start: usize = 0;
    let mut i: usize = 0;
    while i < start
        invariant
            i <= start,
            start <= end <= segment_count,
            segment_count == segments@.len(),
            segs == segments@.map_values(|g: &'a str| g@),
            segs.flatten() == s@,
            total as int == s@.len(),
            char_start as int == segs.take(i as int).flatten().len(),
        decreases start - i,
    {
        let step: usize = segments[i].unicode_len();
        proof {
            lemma_flatten_take_succ(segs, i as int);
            lemma_flatten_split(segs, i as int + 1);
        }
        char_start = char_start + step;
        i = i + 1;
    }

    let mut char_end: usize = char_start;
    while i < end
        invariant
            start <= i <= end,
            end <= segment_count,
            segment_count == segments@.len(),
            segs == segments@.map_values(|g: &'a str| g@),
            segs.flatten() == s@,
            total as int == s@.len(),
            char_start as int == segs.take(start as int).flatten().len(),
            char_end as int == segs.take(i as int).flatten().len(),
        decreases end - i,
    {
        let step: usize = segments[i].unicode_len();
        proof {
            lemma_flatten_take_succ(segs, i as int);
            lemma_flatten_split(segs, i as int + 1);
        }
        char_end = char_end + step;
        i = i + 1;
    }

    proof {
        let a = start as int;
        let b = end as int;
        assert(segs.take(b) =~= segs.take(a) + segs.subrange(a, b));
        lemma_flatten_concat(segs.take(a), segs.subrange(a, b));
        lemma_flatten_split(segs, b);
    }
    let r = s.substring_char(char_start, char_end);
    proof {
        let a = start as int;
        let b = end as int;
        assert(r@ =~= segs.subrange(a, b).flatten());
    }
    r
}

/// The slice of `s` from grapheme-cluster position `start_index` (inclusive)
/// to `end_index` (exclusive).
///
/// Every pair of positions yields a defined result: an inverted or empty
/// range gives the empty slice without walking the string, and positions at
/// or past the last cluster collapse to the end of `s`.
pub fn grapheme_substring<'a>(s: &'a str, start_index: usize, end_index: usize) -> (r: &'a str)
    ensures
        r@ == grapheme_slice(s@, start_index as int, end_index as int),
{
    if end_index <= start_index {
        proof {
            reveal_strlit("");
            assert(""@ =~= Seq::<char>::empty());
        }
        return "";
    }
    let clusters = split_graphemes(s);
    segment_substring(s, &clusters, start_index, end_index)
}

/// Provides a [`grapheme_substring`](GraphemeSubstring::grapheme_substring)
/// method on string types: the same range policy as
/// [`Substring::substring`](crate::Substring::substring), but positions
/// count extended grapheme clusters rather than scalar values.
pub trait GraphemeSubstring: View<V = Seq<char>> {
    /// The slice of the grapheme clusters within the unit-position range
    /// `index`.
    ///
    /// The range is a cluster range, not a byte or character range. Every
    /// range yields a defined result: inverted and empty ranges give the
    /// empty slice, and positions beyond the last cluster collapse to the
    /// end of the string.
    fn grapheme_substring<'a>(&'a self, index: UnitRange) -> (r: &'a str)
        ensures
            r@ == grapheme_range_slice(self.view(), index),
    ;
}

impl GraphemeSubstring for str {
    fn grapheme_substring<'a>(&'a self, index: UnitRange) -> (r: &'a str) {
        let clusters = split_graphemes(self);
        let cluster_count: usize = clusters.len();
        proof {
            assert(clusters@.map_values(|g: &'a str| g@).len() == clusters@.len());
        }
        let start = normalize_start(index.start);
        let end = normalize_end(index.end, cluster_count);
        segment_substring(self, &clusters, start, end)
    }
}

/// Round trip over grapheme units: the fully unbounded range selects the
/// whole string, granted the defining property of the segmentation that its
/// clusters concatenate back to the string.
pub proof fn lemma_grapheme_slice_round_trip(s: Seq<char>)
    requires
        grapheme_segments(s).flatten() == s,
    ensures
        grapheme_range_slice(
            s,
            UnitRange { start: UnitBound::Unbounded, end: UnitBound::Unbounded },
        ) == s,
{
    let clusters = grapheme_segments(s);
    let n = clusters.len() as int;
    if n == 0 {
        assert(clusters.flatten() =~= Seq::<char>::empty());
    } else {
        assert(clusters.subrange(0, n) =~= clusters);
    }
}

} // verus!
