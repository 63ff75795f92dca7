//! The tri-valued rule outcome and the file presence probe that feeds it.
use vstd::prelude::*;

verus! {

/// The result of evaluating one `Rule`.
///
/// `Failure` is an ordinary answer ("the rule does not hold"), not an
/// operational error; `Undetermined` means that no definite answer could be
/// reached.
#[derive(Clone, Copy, Debug, PartialEq, Eq, Hash, Structural)]
pub enum RuleOutcome {
    /// The rule definitely holds for the project.
    Success,
    /// The rule definitely does not hold for the project.
    Failure,
    /// Whether the rule holds could not be decided.
    Undetermined,
}

/// Whether a result, at any level of aggregation, is a total success.
pub trait IsSuccess {
    /// Whether the value counts as a total success.
    spec fn spec_is_success(&self) -> bool;

    /// Answers "is everything all right?", and nothing about why not.
    fn is_success(&self) -> (r: bool)
        ensures
            r == self.spec_is_success(),
    ;
}

impl IsSuccess for RuleOutcome {
    open spec fn spec_is_success(&self) -> bool {
        *self == RuleOutcome::Success
    }

    fn is_success(&self) -> (r: bool) {
        match self {
            RuleOutcome::Success => true,
            _ => false,
        }
    }
}

/// How a path presents itself on the file system.
#[derive(Clone, Copy, Debug, PartialEq, Eq, Hash, Structural)]
pub enum FilePresence {
    /// Nothing exists at the path.
    Absent,
    /// Something exists at the path, with a length of zero.
    Empty,
    /// Something exists at the path, with a non-zero length.
    Present,
    /// The path could not be inspected.
    Unknown,
}

/// What an inspection of a path's metadata reported.
#[derive(Clone, Copy, Debug, PartialEq, Eq, Hash, Structural)]
pub enum FileProbe {
    /// The metadata was read; `len` is the length it gives.
    Found { len: u64 },
    /// The inspection failed because nothing exists at the path.
    NotFound,
    /// The inspection failed for another reason.
    Failed,
}

/// The presence that a metadata probe reports.
pub open spec fn presence_of(probe: FileProbe) -> FilePresence {
    match probe {
        FileProbe::NotFound => FilePresence::Absent,
        FileProbe::Failed => FilePresence::Unknown,
        FileProbe::Found { len } => if len == 0 {
            FilePresence::Empty
        } else {
            FilePresence::Present
        },
    }
}

/// Classifies a path from what the inspection of its metadata reported:
/// absent when nothing is there, empty for a zero length, present otherwise,
/// and unknown when the inspection itself failed.
pub fn file_present(probe: FileProbe) -> (r: FilePresence)
    ensures
        r == presence_of(probe),
{
    match probe {
        FileProbe::NotFound => FilePresence::Absent,
        FileProbe::Failed => FilePresence::Unknown,
        FileProbe::Found { len } => if len == 0 {
            FilePresence::Empty
        } else {
            FilePresence::Present
        },
    }
}

/// The outcome that a file presence stands for: an empty file counts as
/// missing, so that a marker file must have content to count.
pub open spec fn outcome_of_presence(presence: FilePresence) -> RuleOutcome {
    match presence {
        FilePresence::Absent => RuleOutcome::Failure,
        FilePresence::Empty => RuleOutcome::Failure,
        FilePresence::Present => RuleOutcome::Success,
        FilePresence::Unknown => RuleOutcome::Undetermined,
    }
}

impl From<FilePresence> for RuleOutcome {
    fn from(presence: FilePresence) -> (r: RuleOutcome)
        ensures
            r == outcome_of_presence(presence),
    {
        match presence {
            FilePresence::Absent => RuleOutcome::Failure,
            FilePresence::Empty => RuleOutcome::Failure,
            FilePresence::Present => RuleOutcome::Success,
            FilePresence::Unknown => RuleOutcome::Undetermined,
        }
    }
}

impl vstd::std_specs::convert::FromSpecImpl<FilePresence> for RuleOutcome {
    open spec fn obeys_from_spec() -> bool {
        true
    }

    open spec fn from_spec(presence: FilePresence) -> RuleOutcome {
        outcome_of_presence(presence)
    }
}

} // verus!
