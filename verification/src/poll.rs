use crate::error::NodeRunnerError;
use vstd::prelude::*;

verus! {

/// The height on record after one polling cycle that began with `recorded`
/// on record and ended in `outcome`.
pub open spec fn next_recorded(recorded: i64, outcome: Result<i64, NodeRunnerError>) -> i64 {
    match outcome {
        Ok(height) if height > recorded => height,
        _ => recorded,
    }
}

/// What one polling cycle reports: the observed height where it exceeds the
/// height on record, nothing where it does not or where the query failed.
pub open spec fn cycle_report(recorded: i64, outcome: Result<i64, NodeRunnerError>) -> Option<
    i64,
> {
    match outcome {
        Ok(height) if height > recorded => Some(height),
        _ => None,
    }
}

/// The height on record after the cycles `outcomes`, in order, with `start`
/// on record before the first.
pub open spec fn recorded_after(start: i64, outcomes: Seq<Result<i64, NodeRunnerError>>) -> i64
    decreases outcomes.len(),
{
    if outcomes.len() == 0 {
        start
    } else {
        next_recorded(recorded_after(start, outcomes.drop_last()), outcomes.last())
    }
}

/// The heights reported over the cycles `outcomes`, in order.
pub open spec fn reports_of(start: i64, outcomes: Seq<Result<i64, NodeRunnerError>>) -> Seq<i64>
    decreases outcomes.len(),
{
    if outcomes.len() == 0 {
        Seq::empty()
    } else {
        let earlier = reports_of(start, outcomes.drop_last());
        match cycle_report(recorded_after(start, outcomes.drop_last()), outcomes.last()) {
            Some(height) => earlier.push(height),
            None => earlier,
        }
    }
}

/// The memory of the polling loop: the greatest block height seen so far.
#[derive(Debug, Clone, Copy, PartialEq, Eq)]
pub struct HeightTracker {
    recorded: i64,
}

impl HeightTracker {
    /// The height on record.
    pub closed spec fn recorded(&self) -> i64 {
        self.recorded
    }

    /// A tracker that has seen nothing: the least height is on record, so
    /// that any greater one is reported.
    pub fn new() -> (tracker: Self)
        ensures
            tracker.recorded() == i64::MIN,
    {
        HeightTracker { recorded: i64::MIN }
    }

    /// The height on record.
    pub fn recorded_height(&self) -> (height: i64)
        ensures
            height == self.recorded(),
    {
        self.recorded
    }

    /// Takes in the outcome of one query. A height above the one on record
    /// is recorded and returned for reporting; a failed query and a height
    /// that is no progress change nothing and report nothing.
    pub fn observe(&mut self, outcome: &Result<i64, NodeRunnerError>) -> (report: Option<i64>)
        ensures
            final(self).recorded() == next_recorded(old(self).recorded(), *outcome),
            report == cycle_report(old(self).recorded(), *outcome),
            final(self).recorded() >= old(self).recorded(),
    {
        match outcome {
            Ok(height) => {
                if self.recorded < *height {
                    self.recorded = *height;
                    Some(*height)
                } else {
                    None
                }
            },
            Err(_) => None,
        }
    }

    /// Takes in the outcomes of several queries in order and returns the
    /// heights to report, in order.
    pub fn observe_all(&mut self, outcomes: &Vec<Result<i64, NodeRunnerError>>) -> (reports: Vec<
        i64,
    >)
        ensures
            final(self).recorded() == recorded_after(old(self).recorded(), outcomes@),
            reports@ == reports_of(old(self).recorded(), outcomes@),
    {
        let ghost start = self.recorded();
        let mut reports: Vec<i64> = Vec::new();
        let mut i: usize = 0;
        while i < outcomes.len()
            invariant
                i <= outcomes.len(),
                self.recorded() == recorded_after(start, outcomes@.take(i as int)),
                reports@ == reports_of(start, outcomes@.take(i as int)),
            decreases outcomes.len() - i,
        {
            proof {
                assert(outcomes@.take(i + 1).drop_last() == outcomes@.take(i as int));
            }
            match self.observe(&outcomes[i]) {
                Some(height) => reports.push(height),
                None => {},
            }
            i += 1;
        }
        proof {
            assert(outcomes@.take(i as int) == outcomes@);
        }
        reports
    }
}

/// The height on record never falls, whatever the queries return.
pub proof fn lemma_recorded_never_decreases(
    start: i64,
    outcomes: Seq<Result<i64, NodeRunnerError>>,
)
    ensures
        recorded_after(start, outcomes) >= start,
        forall|k: int|
            0 <= k <= outcomes.len() ==> recorded_after(start, outcomes) >= #[trigger] recorded_after(
                start,
                outcomes.take(k),
            ),
    decreases outcomes.len(),
{
    if outcomes.len() > 0 {
        let earlier = outcomes.drop_last();
        lemma_recorded_never_decreases(start, earlier);
        assert forall|k: int| 0 <= k <= outcomes.len() implies recorded_after(start, outcomes)
            >= #[trigger] recorded_after(start, outcomes.take(k)) by {
            if k == outcomes.len() {
                assert(outcomes.take(k) == outcomes);
            } else {
                assert(outcomes.take(k) == earlier.take(k));
            }
        }
    } else {
        assert forall|k: int| 0 <= k <= outcomes.len() implies recorded_after(start, outcomes)
            >= #[trigger] recorded_after(start, outcomes.take(k)) by {
            assert(outcomes.take(k) == outcomes);
        }
    }
}

/// The reported heights rise strictly, each lies above the height on record
/// at the start, and the last of them is the height on record at the end;
/// where nothing was reported, the record is unchanged.
pub proof fn lemma_reports_strictly_increasing(
    start: i64,
    outcomes: Seq<Result<i64, NodeRunnerError>>,
)
    ensures
        forall|i: int, j: int|
            0 <= i < j < reports_of(start, outcomes).len() ==> reports_of(start, outcomes)[i]
                < reports_of(start, outcomes)[j],
        forall|i: int|
            0 <= i < reports_of(start, outcomes).len() ==> start < #[trigger] reports_of(
                start,
                outcomes,
            )[i],
        reports_of(start, outcomes).len() == 0 ==> recorded_after(start, outcomes) == start,
        reports_of(start, outcomes).len() > 0 ==> recorded_after(start, outcomes) == reports_of(
            start,
            outcomes,
        ).last(),
    decreases outcomes.len(),
{
    if outcomes.len() > 0 {
        lemma_reports_strictly_increasing(start, outcomes.drop_last());
    }
}

/// Every reported height is one that a successful query returned.
pub proof fn lemma_reports_were_observed(
    start: i64,
    outcomes: Seq<Result<i64, NodeRunnerError>>,
)
    ensures
        forall|i: int|
            0 <= i < reports_of(start, outcomes).len() ==> outcomes.contains(
                Ok(#[trigger] reports_of(start, outcomes)[i]),
            ),
    decreases outcomes.len(),
{
    if outcomes.len() > 0 {
        let earlier = outcomes.drop_last();
        lemma_reports_were_observed(start, earlier);
        assert forall|i: int| 0 <= i < reports_of(start, outcomes).len() implies outcomes.contains(
            Ok(#[trigger] reports_of(start, outcomes)[i]),
        ) by {
            if i < reports_of(start, earlier).len() {
                let k = choose|k: int|
                    0 <= k < earlier.len() && earlier[k] == Ok::<i64, NodeRunnerError>(
                        reports_of(start, earlier)[i],
                    );
                assert(outcomes[k] == earlier[k]);
            } else {
                assert(outcomes[outcomes.len() - 1] == outcomes.last());
            }
        }
    }
}

} // verus!
