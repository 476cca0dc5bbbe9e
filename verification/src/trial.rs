//! The per-trial decision machine of the bounded random walk.
//!
//! One trial accumulates noisy evidence sample by sample. After each sample
//! the caller classifies the accumulator against the symmetric decision
//! boundaries into a [`Region`] and hands it to [`Trial::observe`], which
//! stops the walk at the first crossing, abandons it when the budget runs
//! out, or lets it continue. The machine never looks at a sample after a
//! crossing, so the latency it reports is the first crossing by construction.

use vstd::prelude::*;

verus! {

/// Where the evidence accumulator stands relative to the symmetric decision
/// boundaries after a sample: strictly above `+criterion`, inside the band
/// `[-criterion, +criterion]`, or strictly below `-criterion`.
#[derive(Clone, Copy, Debug, PartialEq, Eq, Structural)]
pub enum Region {
    /// The accumulator exceeds `+criterion`: the positive boundary is crossed.
    Above,
    /// The magnitude of the accumulator is at most `criterion`: no boundary crossed.
    Within,
    /// The accumulator is beneath `-criterion`: the negative boundary is crossed.
    Below,
}

/// A region stops the walk exactly when it lies outside the band.
pub open spec fn is_crossing(r: Region) -> bool {
    r !is Within
}

/// One completed trial: the walk crossed a boundary within its budget.
///
/// The accumulated evidence values themselves stay with the caller that ran
/// the walk; the outcome records their classification, one region per sample
/// taken, alongside the latency and the chosen response.
#[derive(Debug)]
pub struct TrialOutcome {
    /// The 0-indexed sample at which the magnitude of the accumulator first
    /// exceeded the criterion.
    pub latency: usize,
    /// `true` when the positive boundary was crossed, `false` for the negative one.
    pub response: bool,
    /// The region of the accumulator after each sample, from sample 0 through
    /// the crossing sample, inclusive.
    pub trace: Vec<Region>,
}

impl TrialOutcome {
    /// The shape every completed trial has: the trace covers samples
    /// `0 ..= latency`, the walk stays within the band strictly before
    /// `latency`, crosses at `latency`, and the response records which
    /// boundary was crossed.
    pub open spec fn wf(self) -> bool {
        &&& self.trace@.len() == self.latency as int + 1
        &&& is_crossing(self.trace@[self.latency as int])
        &&& (self.response <==> self.trace@[self.latency as int] is Above)
        &&& forall|j: int| 0 <= j < self.latency as int ==> self.trace@[j] is Within
    }
}

/// A trial that is still walking: fewer than `budget` samples taken, none of
/// them crossing.
pub struct Trial {
    max_samples: usize,
    trace: Vec<Region>,
}

/// What one observed sample does to a running trial.
pub enum StepVerdict {
    /// The walk neither crossed nor spent its budget; it goes on.
    Continue(Trial),
    /// The magnitude of the accumulator exceeded the criterion for the first time.
    Crossed(TrialOutcome),
    /// The budget is spent without a crossing: the trial is abandoned and
    /// contributes no outcome.
    Exhausted,
}

impl Trial {
    /// The per-trial sample budget.
    pub closed spec fn budget(self) -> nat {
        self.max_samples as nat
    }

    /// The regions observed so far, one per sample taken.
    pub closed spec fn steps(self) -> Seq<Region> {
        self.trace@
    }

    /// A running trial is strictly within budget and has seen no crossing.
    pub open spec fn wf(self) -> bool {
        &&& self.steps().len() < self.budget()
        &&& forall|j: int| 0 <= j < self.steps().len() ==> self.steps()[j] is Within
    }

    /// Starts a trial with an empty trace and a budget of `max_samples`.
    ///
    /// The trace is pre-sized to the budget, the most it can ever hold.
    pub fn new(max_samples: usize) -> (t: Trial)
        requires
            max_samples >= 1,
        ensures
            t.wf(),
            t.budget() == max_samples,
            t.steps() == Seq::<Region>::empty(),
    {
        Trial { max_samples, trace: Vec::with_capacity(max_samples) }
    }

    /// Consumes the region of the accumulator after the next sample and
    /// decides: stop at the first crossing, run out of budget, or continue.
    pub fn observe(self, r: Region) -> (v: StepVerdict)
        requires
            self.wf(),
        ensures
            is_crossing(r) ==> (v matches StepVerdict::Crossed(o)
                && o.wf()
                && o.trace@ == self.steps().push(r)
                && o.latency as int == self.steps().len() as int
                && (o.latency as int) < self.budget() as int
                && (o.response <==> r is Above)),
            !is_crossing(r) && self.steps().len() + 1 < self.budget() ==> (v
                matches StepVerdict::Continue(t)
                && t.wf()
                && t.budget() == self.budget()
                && t.steps() == self.steps().push(r)),
            !is_crossing(r) && self.steps().len() + 1 == self.budget() ==> v is Exhausted,
    {
        let Trial { max_samples, mut trace } = self;
        trace.push(r);
        if r != Region::Within {
            let latency: usize = trace.len() - 1;
            let response: bool = r == Region::Above;
            StepVerdict::Crossed(TrialOutcome { latency, response, trace })
        } else if trace.len() == max_samples {
            StepVerdict::Exhausted
        } else {
            StepVerdict::Continue(Trial { max_samples, trace })
        }
    }
}

} // verus!
