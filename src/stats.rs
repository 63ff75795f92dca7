//! Summary counts of rule outcomes and the overall outcome they give.
use vstd::prelude::*;
use crate::outcome::{IsSuccess, RuleOutcome};
use crate::outcomes::OutcomesByDescription;

verus! {

/// How many entries carry the outcome `o`.
pub open spec fn count_outcome(entries: Seq<(Seq<char>, RuleOutcome)>, o: RuleOutcome) -> nat
    decreases entries.len(),
{
    if entries.len() == 0 {
        0
    } else {
        count_outcome(entries.drop_last(), o) + if entries.last().1 == o {
            1nat
        } else {
            0nat
        }
    }
}

proof fn lemma_counts_bounded(entries: Seq<(Seq<char>, RuleOutcome)>)
    ensures
        count_outcome(entries, RuleOutcome::Success) + count_outcome(entries, RuleOutcome::Failure)
            + count_outcome(entries, RuleOutcome::Undetermined) == entries.len(),
    decreases entries.len(),
{
    if entries.len() > 0 {
        lemma_counts_bounded(entries.drop_last());
    }
}

/// Counts of the outcomes of a set of rule evaluations.
#[derive(Clone, Copy, Debug, PartialEq, Eq, Hash, Structural)]
pub struct OutcomeStats {
    /// The number of `RuleOutcome::Success` outcomes.
    pub success_count: usize,
    /// The number of `RuleOutcome::Failure` outcomes.
    pub fail_count: usize,
    /// The number of `RuleOutcome::Undetermined` outcomes.
    pub undetermined_count: usize,
}

/// The statistics counted from a collection of outcomes.
pub open spec fn stats_of(entries: Seq<(Seq<char>, RuleOutcome)>) -> OutcomeStats {
    OutcomeStats {
        success_count: count_outcome(entries, RuleOutcome::Success) as usize,
        fail_count: count_outcome(entries, RuleOutcome::Failure) as usize,
        undetermined_count: count_outcome(entries, RuleOutcome::Undetermined) as usize,
    }
}

/// The overall outcome of a set of evaluations: any failure makes it a
/// failure; otherwise any undetermined outcome makes it undetermined; it is
/// a success when there was at least one success; and with nothing evaluated
/// at all it is undetermined.
pub open spec fn overall_outcome(stats: OutcomeStats) -> RuleOutcome {
    if stats.fail_count > 0 {
        RuleOutcome::Failure
    } else if stats.undetermined_count > 0 {
        RuleOutcome::Undetermined
    } else if stats.success_count > 0 {
        RuleOutcome::Success
    } else {
        RuleOutcome::Undetermined
    }
}

impl OutcomeStats {
    /// All three counts zero.
    pub fn empty() -> (r: OutcomeStats)
        ensures
            r == (OutcomeStats { success_count: 0, fail_count: 0, undetermined_count: 0 }),
    {
        OutcomeStats { success_count: 0, fail_count: 0, undetermined_count: 0 }
    }

    /// The overall outcome these counts give.
    pub fn overall(&self) -> (r: RuleOutcome)
        ensures
            r == overall_outcome(*self),
    {
        if self.fail_count > 0 {
            RuleOutcome::Failure
        } else if self.undetermined_count > 0 {
            RuleOutcome::Undetermined
        } else if self.success_count > 0 {
            RuleOutcome::Success
        } else {
            RuleOutcome::Undetermined
        }
    }
}

impl IsSuccess for OutcomeStats {
    /// At least one success and nothing else.
    open spec fn spec_is_success(&self) -> bool {
        overall_outcome(*self) == RuleOutcome::Success
    }

    fn is_success(&self) -> (r: bool) {
        self.overall() == RuleOutcome::Success
    }
}

impl Default for OutcomeStats {
    fn default() -> (r: OutcomeStats)
        ensures
            r == (OutcomeStats { success_count: 0, fail_count: 0, undetermined_count: 0 }),
    {
        OutcomeStats::empty()
    }
}

impl<'a> From<&'a OutcomesByDescription> for OutcomeStats {
    fn from(outcomes: &'a OutcomesByDescription) -> (r: OutcomeStats)
        ensures
            r == stats_of(outcomes@),
    {
        let entries = outcomes.entries();
        let ghost es = outcomes@;
        let mut stats = OutcomeStats::empty();
        let mut i: usize = 0;
        while i < entries.len()
            invariant
                entries@.map_values(|e: (String, RuleOutcome)| (e.0@, e.1)) == es,
                0 <= i <= es.len(),
                stats.success_count == count_outcome(es.take(i as int), RuleOutcome::Success),
                stats.fail_count == count_outcome(es.take(i as int), RuleOutcome::Failure),
                stats.undetermined_count == count_outcome(es.take(i as int), RuleOutcome::Undetermined),
            decreases es.len() - i,
        {
            proof {
                lemma_counts_bounded(es.take(i as int));
                assert(es.take(i + 1).drop_last() =~= es.take(i as int));
                assert(es.take(i + 1).last() == es[i as int]);
            }
            match entries[i].1 {
                RuleOutcome::Success => stats.success_count = stats.success_count + 1,
                RuleOutcome::Failure => stats.fail_count = stats.fail_count + 1,
                RuleOutcome::Undetermined => stats.undetermined_count = stats.undetermined_count + 1,
            }
            i += 1;
        }
        assert(es.take(es.len() as int) =~= es);
        stats
    }
}

impl<'a> vstd::std_specs::convert::FromSpecImpl<&'a OutcomesByDescription> for OutcomeStats {
    open spec fn obeys_from_spec() -> bool {
        true
    }

    open spec fn from_spec(outcomes: &'a OutcomesByDescription) -> OutcomeStats {
        stats_of(outcomes@)
    }
}

impl<'a> From<&'a OutcomeStats> for RuleOutcome {
    fn from(stats: &'a OutcomeStats) -> (r: RuleOutcome)
        ensures
            r == overall_outcome(*stats),
    {
        stats.overall()
    }
}

impl<'a> vstd::std_specs::convert::FromSpecImpl<&'a OutcomeStats> for RuleOutcome {
    open spec fn obeys_from_spec() -> bool {
        true
    }

    open spec fn from_spec(stats: &'a OutcomeStats) -> RuleOutcome {
        overall_outcome(*stats)
    }
}

impl IsSuccess for OutcomesByDescription {
    /// The overall outcome of the recorded outcomes is a success.
    open spec fn spec_is_success(&self) -> bool {
        overall_outcome(stats_of(self@)) == RuleOutcome::Success
    }

    fn is_success(&self) -> (r: bool) {
        OutcomeStats::from(self).is_success()
    }
}

/// With nothing evaluated, all counts are zero and the overall outcome is
/// undetermined.
pub proof fn lemma_no_outcomes_undetermined(entries: Seq<(Seq<char>, RuleOutcome)>)
    requires
        entries.len() == 0,
    ensures
        stats_of(entries) == (OutcomeStats { success_count: 0, fail_count: 0, undetermined_count: 0 }),
        overall_outcome(stats_of(entries)) == RuleOutcome::Undetermined,
{
}

/// A failure anywhere makes the overall outcome a failure, whatever the
/// other counts are.
pub proof fn lemma_failure_dominates(stats: OutcomeStats)
    requires
        stats.fail_count > 0,
    ensures
        overall_outcome(stats) == RuleOutcome::Failure,
{
}

/// Without failures, an undetermined outcome anywhere makes the overall
/// outcome undetermined, whatever the number of successes.
pub proof fn lemma_undetermined_without_failure(stats: OutcomeStats)
    requires
        stats.fail_count == 0,
        stats.undetermined_count > 0,
    ensures
        overall_outcome(stats) == RuleOutcome::Undetermined,
{
}

} // verus!
