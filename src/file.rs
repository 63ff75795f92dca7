//! Marker file discovery over directory listings.
//!
//! The listings themselves are read by the caller; these functions decide
//! what a listing says about the presence of a file whose name matches a
//! pattern.
use vstd::prelude::*;
use crate::outcome::RuleOutcome;
use crate::pattern::{regex_compiles, regex_is_match, Pattern};

verus! {

/// One entry of a directory listing, as reading it reported.
#[derive(Clone, Debug, PartialEq, Eq)]
pub enum DirEntryInfo {
    /// The listing yielded an error in place of this entry.
    Unreadable,
    /// The entry is a directory.
    Directory,
    /// The entry is not a directory. `name` is its file name where that is
    /// valid UTF-8; `len` is its length where its metadata could be read.
    File { name: Option<String>, len: Option<u64> },
}

/// A directory's entries, or `None` where the directory is missing or could
/// not be read.
pub type DirListing = Option<Vec<DirEntryInfo>>;

/// Whether `entry` is a file whose name matches the regex compiled from
/// `source` and, when `nonempty` is asked for, whose length is known to be
/// non-zero.
pub open spec fn entry_matches(source: Seq<char>, entry: DirEntryInfo, nonempty: bool) -> bool {
    match entry {
        DirEntryInfo::File { name: Some(n), len } => {
            &&& regex_is_match(source, n@)
            &&& nonempty ==> (len matches Some(l) && l > 0)
        },
        _ => false,
    }
}

/// What a shallow scan of `entries` finds: success when some entry matches,
/// otherwise undetermined when some entry could not be read, otherwise
/// failure.
pub open spec fn scan_entries(source: Seq<char>, entries: Seq<DirEntryInfo>, nonempty: bool) -> RuleOutcome {
    if exists|i: int| 0 <= i < entries.len() && #[trigger] entry_matches(source, entries[i], nonempty) {
        RuleOutcome::Success
    } else if exists|i: int| 0 <= i < entries.len() && #[trigger] entries[i] == DirEntryInfo::Unreadable {
        RuleOutcome::Undetermined
    } else {
        RuleOutcome::Failure
    }
}

/// What a shallow scan of a directory finds: undetermined when the pattern
/// does not compile or the directory could not be listed.
pub open spec fn scan_listing(source: Seq<char>, listing: DirListing, nonempty: bool) -> RuleOutcome {
    match listing {
        None => RuleOutcome::Undetermined,
        Some(entries) => if regex_compiles(source) {
            scan_entries(source, entries@, nonempty)
        } else {
            RuleOutcome::Undetermined
        },
    }
}

/// The outcome of searching a project directory and, as a fallback, its
/// workspace root: success from either place wins; otherwise the project
/// directory's own outcome stands.
pub open spec fn search_with_fallback(source: Seq<char>, project_dir: DirListing, workspace_dir: DirListing) -> RuleOutcome {
    let local = scan_listing(source, project_dir, true);
    if local == RuleOutcome::Success || scan_listing(source, workspace_dir, true) == RuleOutcome::Success {
        RuleOutcome::Success
    } else {
        local
    }
}

fn scan_dir(pattern: &str, listing: &DirListing, nonempty: bool) -> (r: RuleOutcome)
    ensures
        r == scan_listing(pattern@, *listing, nonempty),
{
    let entries = match listing {
        None => return RuleOutcome::Undetermined,
        Some(entries) => entries,
    };
    let compiled = match Pattern::compile(pattern) {
        None => return RuleOutcome::Undetermined,
        Some(p) => p,
    };
    let mut entry_unreadable = false;
    let mut i: usize = 0;
    while i < entries.len()
        invariant
            compiled@ == pattern@,
            regex_compiles(pattern@),
            *listing == Some(*entries),
            0 <= i <= entries@.len(),
            forall|j: int| 0 <= j < i ==> !#[trigger] entry_matches(pattern@, entries@[j], nonempty),
            entry_unreadable <==> exists|j: int| 0 <= j < i && #[trigger] entries@[j] == DirEntryInfo::Unreadable,
        decreases entries@.len() - i,
    {
        match &entries[i] {
            DirEntryInfo::Unreadable => {
                entry_unreadable = true;
            },
            DirEntryInfo::Directory => {},
            DirEntryInfo::File { name, len } => {
                if let Some(n) = name {
                    if compiled.is_match(n.as_str()) {
                        let big_enough = match len {
                            Some(l) => *l > 0,
                            None => false,
                        };
                        if !nonempty || big_enough {
                            assert(entry_matches(pattern@, entries@[i as int], nonempty));
                            return RuleOutcome::Success;
                        }
                    }
                }
            },
        }
        i += 1;
    }
    if entry_unreadable {
        RuleOutcome::Undetermined
    } else {
        RuleOutcome::Failure
    }
}

/// Scans a project directory's direct entries for a file whose name matches
/// `pattern`, without descending into subdirectories. Any matching file
/// counts, empty or not.
pub fn shallow_scan_project_dir_for_file_name_match(pattern: &str, project_dir: &DirListing) -> (r: RuleOutcome)
    ensures
        r == scan_listing(pattern@, *project_dir, false),
{
    scan_dir(pattern, project_dir, false)
}

/// Scans a project directory's direct entries for a non-empty file whose
/// name matches `pattern`, without descending into subdirectories.
pub fn shallow_scan_project_dir_for_nonempty_file_name_match(pattern: &str, project_dir: &DirListing) -> (r: RuleOutcome)
    ensures
        r == scan_listing(pattern@, *project_dir, true),
{
    scan_dir(pattern, project_dir, true)
}

/// Scans the project directory for a non-empty file whose name matches
/// `pattern`; where none is found there, scans the workspace root as well.
/// `workspace_dir` is `None` where no workspace root is known.
pub fn search_manifest_and_workspace_dir_for_nonempty_file_name_match(
    pattern: &str,
    project_dir: &DirListing,
    workspace_dir: &DirListing,
) -> (r: RuleOutcome)
    ensures
        r == search_with_fallback(pattern@, *project_dir, *workspace_dir),
{
    let local = scan_dir(pattern, project_dir, true);
    if local == RuleOutcome::Success {
        return RuleOutcome::Success;
    }
    match scan_dir(pattern, workspace_dir, true) {
        RuleOutcome::Success => RuleOutcome::Success,
        _ => local,
    }
}

/// A shallow scan of an empty directory fails, whatever the pattern (as long
/// as it compiles) and whether or not non-empty files are asked for.
pub proof fn lemma_empty_dir_scan_fails(source: Seq<char>, entries: Vec<DirEntryInfo>, nonempty: bool)
    requires
        regex_compiles(source),
        entries@.len() == 0,
    ensures
        scan_listing(source, Some(entries), nonempty) == RuleOutcome::Failure,
{
}

/// A directory that holds one file whose name matches: the plain scan
/// succeeds, and the non-empty scan succeeds exactly when the file's length
/// is non-zero.
pub proof fn lemma_single_matching_file_scan(
    source: Seq<char>,
    entries: Vec<DirEntryInfo>,
    name: String,
    len: u64,
)
    requires
        regex_compiles(source),
        regex_is_match(source, name@),
        entries@ == seq![DirEntryInfo::File { name: Some(name), len: Some(len) }],
    ensures
        scan_listing(source, Some(entries), false) == RuleOutcome::Success,
        scan_listing(source, Some(entries), true) == if len > 0 {
            RuleOutcome::Success
        } else {
            RuleOutcome::Failure
        },
{
    assert(entry_matches(source, entries@[0], false));
    if len > 0 {
        assert(entry_matches(source, entries@[0], true));
    }
}

/// A matching non-empty file found only in the workspace root makes the
/// search from a member package succeed, whatever the member's own
/// directory holds.
pub proof fn lemma_workspace_root_marker_found(
    source: Seq<char>,
    project_dir: DirListing,
    workspace_entries: Vec<DirEntryInfo>,
    i: int,
)
    requires
        regex_compiles(source),
        0 <= i < workspace_entries@.len(),
        entry_matches(source, workspace_entries@[i], true),
    ensures
        search_with_fallback(source, project_dir, Some(workspace_entries)) == RuleOutcome::Success,
{
}

} // verus!
