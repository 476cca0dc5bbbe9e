//! The first-crossing function on region sequences, and the laws the walk
//! and its replication obey.
//!
//! A trial's sample stream, classified step by step, is a sequence of
//! [`Region`] values. [`first_crossing`] says at which index such a stream
//! first leaves the band, if it ever does; the laws here relate it to the
//! outcomes the trial machine produces and to the per-trial sample budget.

use vstd::prelude::*;
use crate::trial::Region;
use crate::trial::TrialOutcome;
use crate::trial::is_crossing;

verus! {

/// The index of the first crossing region in `tr`, or `None` when the whole
/// sequence stays within the band.
pub open spec fn first_crossing(tr: Seq<Region>) -> Option<int>
    decreases tr.len(),
{
    if tr.len() == 0 {
        None
    } else if is_crossing(tr[0]) {
        Some(0int)
    } else {
        match first_crossing(tr.drop_first()) {
            None => None,
            Some(i) => Some(i + 1),
        }
    }
}

/// A crossing at `k`, with everything before it within the band, is the
/// first crossing.
pub proof fn lemma_first_crossing_at(tr: Seq<Region>, k: int)
    requires
        0 <= k < tr.len(),
        is_crossing(tr[k]),
        forall|j: int| 0 <= j < k ==> !is_crossing(tr[j]),
    ensures
        first_crossing(tr) == Some(k),
    decreases k,
{
    if k > 0 {
        assert forall|j: int| 0 <= j < k - 1 implies !is_crossing(tr.drop_first()[j]) by {
            assert(tr.drop_first()[j] == tr[j + 1]);
        }
        lemma_first_crossing_at(tr.drop_first(), k - 1);
    }
}

/// What `first_crossing` returns: `None` exactly when no region crosses, and
/// otherwise the index of a crossing that nothing precedes but in-band steps.
pub proof fn lemma_first_crossing_spec(tr: Seq<Region>)
    ensures
        match first_crossing(tr) {
            None => forall|j: int| 0 <= j < tr.len() ==> !is_crossing(tr[j]),
            Some(i) => 0 <= i < tr.len() && is_crossing(tr[i]) && forall|j: int|
                0 <= j < i ==> !is_crossing(tr[j]),
        },
    decreases tr.len(),
{
    if tr.len() > 0 && !is_crossing(tr[0]) {
        lemma_first_crossing_spec(tr.drop_first());
        assert forall|j: int| 1 <= j < tr.len() implies tr.drop_first()[j - 1] == tr[j] by {}
    }
}

/// Every completed trial stops at the first crossing of its trace: its
/// latency is that index, nothing earlier leaves the band, and the crossing
/// step itself does.
pub proof fn lemma_outcome_first_crossing(o: TrialOutcome)
    requires
        o.wf(),
    ensures
        first_crossing(o.trace@) == Some(o.latency as int),
{
    lemma_first_crossing_at(o.trace@, o.latency as int);
}

/// A stream that never leaves the band has no crossing, however long it runs:
/// with an unreachable criterion every trial is abandoned.
pub proof fn lemma_within_band_never_crosses(tr: Seq<Region>)
    requires
        forall|j: int| 0 <= j < tr.len() ==> tr[j] is Within,
    ensures
        first_crossing(tr) == None::<int>,
{
    lemma_first_crossing_spec(tr);
}

/// A stream whose very first step leaves the band crosses at latency 0: with
/// a criterion the first sample already clears, the trial ends at once.
pub proof fn lemma_immediate_crossing(tr: Seq<Region>)
    requires
        tr.len() >= 1,
        is_crossing(tr[0]),
    ensures
        first_crossing(tr) == Some(0int),
{
}

/// For one fixed sample stream, a trial that completes within budget `m1`
/// completes at the same step under any budget `m2 >= m1`: raising
/// `max_samples` never changes an already-decided trial.
pub proof fn lemma_budget_monotone(tr: Seq<Region>, i: int, m1: int, m2: int)
    requires
        0 <= m1 <= m2 <= tr.len(),
        first_crossing(tr.take(m1)) == Some(i),
    ensures
        first_crossing(tr.take(m2)) == Some(i),
{
    lemma_first_crossing_spec(tr.take(m1));
    assert forall|j: int| 0 <= j < i implies !is_crossing(tr.take(m2)[j]) by {
        assert(tr.take(m2)[j] == tr.take(m1)[j]);
    }
    assert(tr.take(m2)[i] == tr.take(m1)[i]);
    lemma_first_crossing_at(tr.take(m2), i);
}

/// How many of a fixed collection of sample streams complete within `budget`
/// steps: one completed trial per stream whose prefix of `budget` regions
/// contains a crossing.
pub open spec fn completed_count(streams: Seq<Seq<Region>>, budget: int) -> int
    decreases streams.len(),
{
    if streams.len() == 0 {
        0
    } else {
        (if first_crossing(streams[0].take(budget)) is Some {
            1int
        } else {
            0int
        }) + completed_count(streams.drop_first(), budget)
    }
}

/// A replication never yields more outcomes than the trials it ran.
pub proof fn lemma_completed_count_bounds(streams: Seq<Seq<Region>>, budget: int)
    ensures
        0 <= completed_count(streams, budget) <= streams.len(),
    decreases streams.len(),
{
    if streams.len() > 0 {
        lemma_completed_count_bounds(streams.drop_first(), budget);
    }
}

/// For fixed sample streams, the number of completed trials is monotonically
/// non-decreasing in the per-trial budget.
pub proof fn lemma_completed_count_monotone(streams: Seq<Seq<Region>>, m1: int, m2: int)
    requires
        0 <= m1 <= m2,
        forall|k: int| 0 <= k < streams.len() ==> m2 <= #[trigger] streams[k].len(),
    ensures
        completed_count(streams, m1) <= completed_count(streams, m2),
    decreases streams.len(),
{
    if streams.len() > 0 {
        match first_crossing(streams[0].take(m1)) {
            Some(i) => {
                lemma_budget_monotone(streams[0], i, m1, m2);
            },
            None => {
            },
        }
        assert forall|k: int| 0 <= k < streams.drop_first().len() implies m2
            <= #[trigger] streams.drop_first()[k].len() by {
            assert(streams.drop_first()[k] == streams[k + 1]);
        }
        lemma_completed_count_monotone(streams.drop_first(), m1, m2);
    }
}

} // verus!
