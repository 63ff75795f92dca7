//! Process exit codes for outcomes and errors.
use vstd::prelude::*;
use crate::check::CheckError;
use crate::checklist::FilterError;
use crate::outcome::RuleOutcome;
use crate::outcomes::OutcomesByDescription;
use crate::stats::{overall_outcome, stats_of, OutcomeStats};

verus! {

/// The exit code that a process reporting an outcome should end with.
///
/// Outcomes take 0 (success), 1 (failure) and 2 (undetermined); operational
/// errors of the tool itself take codes of 3 and above, so that "rules
/// failed" and "the tool malfunctioned" stay apart.
pub trait ExitCode {
    /// The exit code, as a value.
    spec fn spec_exit_code(&self) -> i32;

    /// The exit code for this value.
    fn exit_code(&self) -> (r: i32)
        ensures
            r == self.spec_exit_code(),
    ;
}

/// The exit code of an outcome.
pub open spec fn outcome_exit_code(o: RuleOutcome) -> i32 {
    match o {
        RuleOutcome::Success => 0,
        RuleOutcome::Failure => 1,
        RuleOutcome::Undetermined => 2,
    }
}

impl ExitCode for RuleOutcome {
    open spec fn spec_exit_code(&self) -> i32 {
        outcome_exit_code(*self)
    }

    fn exit_code(&self) -> (r: i32) {
        match self {
            RuleOutcome::Success => 0,
            RuleOutcome::Failure => 1,
            RuleOutcome::Undetermined => 2,
        }
    }
}

impl ExitCode for OutcomeStats {
    open spec fn spec_exit_code(&self) -> i32 {
        outcome_exit_code(overall_outcome(*self))
    }

    fn exit_code(&self) -> (r: i32) {
        self.overall().exit_code()
    }
}

impl ExitCode for OutcomesByDescription {
    open spec fn spec_exit_code(&self) -> i32 {
        outcome_exit_code(overall_outcome(stats_of(self@)))
    }

    fn exit_code(&self) -> (r: i32) {
        OutcomeStats::from(self).exit_code()
    }
}

impl ExitCode for CheckError {
    open spec fn spec_exit_code(&self) -> i32 {
        10
    }

    fn exit_code(&self) -> (r: i32) {
        match self {
            CheckError::PrintOutputFailure { .. } => 10,
        }
    }
}

impl ExitCode for FilterError {
    open spec fn spec_exit_code(&self) -> i32 {
        match *self {
            FilterError::RuleChecklistReadError(_) => 20,
            FilterError::RequestedRuleNotFound { .. } => 21,
        }
    }

    fn exit_code(&self) -> (r: i32) {
        match self {
            FilterError::RuleChecklistReadError(_) => 20,
            FilterError::RequestedRuleNotFound { .. } => 21,
        }
    }
}

impl<T: ExitCode, E: ExitCode> ExitCode for Result<T, E> {
    open spec fn spec_exit_code(&self) -> i32 {
        match *self {
            Ok(t) => t.spec_exit_code(),
            Err(e) => e.spec_exit_code(),
        }
    }

    fn exit_code(&self) -> (r: i32) {
        match self {
            Ok(t) => t.exit_code(),
            Err(e) => e.exit_code(),
        }
    }
}

/// The codes of operational errors lie apart from the codes of outcomes.
pub proof fn lemma_error_codes_apart_from_outcomes(c: CheckError, f: FilterError, o: RuleOutcome)
    ensures
        0 <= outcome_exit_code(o) <= 2,
        c.spec_exit_code() >= 3,
        f.spec_exit_code() >= 3,
        c.spec_exit_code() != f.spec_exit_code(),
{
}

} // verus!
