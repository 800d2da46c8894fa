//! Displayable count statistics of one typing-target entity, and their
//! cross-session accumulation.
//!
//! The engine's full result accumulation also combines timing
//! distributions, which stay opaque to this crate; the commuting count
//! fields are modelled here exactly.

use vstd::prelude::*;

verus! {

/// The counts of one target entity (key strokes, or ideal key strokes) of
/// a typing result.
#[derive(Clone, Copy, Debug, PartialEq, Eq, Structural)]
pub struct TypingResultTarget {
    /// How many entities the target holds.
    pub whole_count: usize,
    /// How many entities were finished without any wrong stroke.
    pub completely_correct_count: usize,
    /// How many wrong strokes occurred.
    pub missed_count: usize,
}

/// The mathematical value of the counts.
#[verifier::ext_equal]
pub ghost struct TargetCounts {
    pub whole_count: int,
    pub completely_correct_count: int,
    pub missed_count: int,
}

impl View for TypingResultTarget {
    type V = TargetCounts;

    open spec fn view(&self) -> TargetCounts {
        TargetCounts {
            whole_count: self.whole_count as int,
            completely_correct_count: self.completely_correct_count as int,
            missed_count: self.missed_count as int,
        }
    }
}

/// Accumulation of count statistics: the counts sum.
pub open spec fn merged_counts(a: TargetCounts, b: TargetCounts) -> TargetCounts {
    TargetCounts {
        whole_count: a.whole_count + b.whole_count,
        completely_correct_count: a.completely_correct_count + b.completely_correct_count,
        missed_count: a.missed_count + b.missed_count,
    }
}

/// Accumulating count statistics is associative: merging three results one
/// after another gives the same counts as merging the last two first, so
/// grouping does not matter.
pub proof fn lemma_merged_counts_associative(a: TargetCounts, b: TargetCounts, c: TargetCounts)
    ensures
        merged_counts(merged_counts(a, b), c) == merged_counts(a, merged_counts(b, c)),
{
}

/// Accumulating count statistics is commutative: the order of the two
/// results does not matter.
pub proof fn lemma_merged_counts_commutative(a: TargetCounts, b: TargetCounts)
    ensures
        merged_counts(a, b) == merged_counts(b, a),
{
}

impl TypingResultTarget {
    pub fn new(
        whole_count: usize,
        completely_correct_count: usize,
        missed_count: usize,
    ) -> (r: TypingResultTarget)
        ensures
            r.whole_count == whole_count,
            r.completely_correct_count == completely_correct_count,
            r.missed_count == missed_count,
    {
        TypingResultTarget { whole_count, completely_correct_count, missed_count }
    }

    /// Whether accumulating with `other` stays within the machine's count
    /// range.
    pub open spec fn merge_fits(&self, other: &TypingResultTarget) -> bool {
        &&& self.whole_count + other.whole_count <= usize::MAX
        &&& self.completely_correct_count + other.completely_correct_count <= usize::MAX
        &&& self.missed_count + other.missed_count <= usize::MAX
    }

    /// Accumulates the counts of two results.
    pub fn merge(&self, other: &TypingResultTarget) -> (r: TypingResultTarget)
        requires
            self.merge_fits(other),
        ensures
            r@ == merged_counts(self@, other@),
    {
        TypingResultTarget {
            whole_count: self.whole_count + other.whole_count,
            completely_correct_count: self.completely_correct_count
                + other.completely_correct_count,
            missed_count: self.missed_count + other.missed_count,
        }
    }
}

} // verus!
