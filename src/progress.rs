//! SeriesProgressTracker: whether maps of a series remain unfinished.
use vstd::prelude::*;

verus! {

/// The number of matches whose completion timestamp is null.
pub open spec fn spec_count_incomplete(completed_at: Seq<Option<i64>>) -> nat
    decreases completed_at.len(),
{
    if completed_at.len() == 0 {
        0
    } else {
        spec_count_incomplete(completed_at.drop_last()) + if completed_at.last() is None {
            1nat
        } else {
            0nat
        }
    }
}

/// Every match of the series has a completion timestamp.
pub open spec fn all_completed(completed_at: Seq<Option<i64>>) -> bool {
    forall|i: int| 0 <= i < completed_at.len() ==> (#[trigger] completed_at[i]) is Some
}

/// A series is complete exactly when no match of it lacks a completion
/// timestamp, whatever its number of matches.
pub proof fn lemma_complete_iff_none_incomplete(completed_at: Seq<Option<i64>>)
    ensures
        (spec_count_incomplete(completed_at) == 0) <==> all_completed(completed_at),
    decreases completed_at.len(),
{
    if completed_at.len() > 0 {
        let init = completed_at.drop_last();
        lemma_complete_iff_none_incomplete(init);
        if all_completed(completed_at) {
            assert forall|i: int| 0 <= i < init.len() implies (#[trigger] init[i]) is Some by {
                assert(init[i] == completed_at[i]);
            }
            assert(completed_at[completed_at.len() - 1] is Some);
        }
        if spec_count_incomplete(completed_at) == 0 {
            assert forall|i: int| 0 <= i < completed_at.len() implies (
            #[trigger] completed_at[i]) is Some by {
                if i < completed_at.len() - 1 {
                    assert(init[i] == completed_at[i]);
                }
            }
        }
    }
}

proof fn lemma_count_incomplete_bound(completed_at: Seq<Option<i64>>)
    ensures
        spec_count_incomplete(completed_at) <= completed_at.len(),
    decreases completed_at.len(),
{
    if completed_at.len() > 0 {
        lemma_count_incomplete_bound(completed_at.drop_last());
    }
}

/// Decides, from the completion timestamps of a series' matches, how many
/// maps remain and whether the series is over.
pub struct SeriesProgressTracker;

impl SeriesProgressTracker {
    /// Counts the matches without a completion timestamp.
    pub fn count_incomplete(completed_at: &Vec<Option<i64>>) -> (r: u64)
        ensures
            r == spec_count_incomplete(completed_at@),
    {
        let mut n: u64 = 0;
        let mut i: usize = 0;
        while i < completed_at.len()
            invariant
                0 <= i <= completed_at.len(),
                n == spec_count_incomplete(completed_at@.take(i as int)),
            decreases completed_at.len() - i,
        {
            proof {
                assert(completed_at@.take(i as int + 1).drop_last() =~= completed_at@.take(
                    i as int,
                ));
                lemma_count_incomplete_bound(completed_at@.take(i as int));
            }
            if completed_at[i].is_none() {
                n = n + 1;
            }
            i = i + 1;
        }
        assert(completed_at@.take(completed_at.len() as int) =~= completed_at@);
        n
    }

    /// True exactly when no match of the series lacks a completion
    /// timestamp. Read it only after the current match's completion is stored.
    pub fn is_series_complete(completed_at: &Vec<Option<i64>>) -> (r: bool)
        ensures
            r == all_completed(completed_at@),
            r == (spec_count_incomplete(completed_at@) == 0),
    {
        proof {
            lemma_complete_iff_none_incomplete(completed_at@);
        }
        Self::count_incomplete(completed_at) == 0
    }
}

} // verus!
