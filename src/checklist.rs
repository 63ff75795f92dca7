//! Checklists: line-delimited lists of rule descriptions that narrow a
//! catalog of rules down to the requested ones.
use vstd::prelude::*;
use crate::rule::Rule;
use crate::text::same_text;

verus! {

/// The default name of a checklist file, looked for in a directory and its
/// ancestors.
pub const DEFAULT_CULTURE_CHECKLIST_FILE_NAME: &'static str = ".culture";

/// Errors of narrowing a set of rules down to a checklist.
#[derive(Clone, Debug, PartialEq, Eq, Hash)]
pub enum FilterError {
    /// The checklist could not be read; the text says why.
    RuleChecklistReadError(String),
    /// A requested description matches none of the available rules.
    RequestedRuleNotFound {
        /// The requested description that matched no rule.
        rule_description: String,
    },
}

/// What reading a checklist file gave.
#[derive(Clone, Debug, PartialEq, Eq, Hash)]
pub enum ChecklistFile {
    /// The file could not be opened.
    NotOpened,
    /// The file was opened, but its content could not be read as text.
    Unreadable,
    /// The file's whole content.
    Read(String),
}

/// A line without one trailing carriage return.
pub open spec fn strip_cr(line: Seq<char>) -> Seq<char> {
    if line.len() > 0 && line.last() == '\r' {
        line.drop_last()
    } else {
        line
    }
}

/// `lines`, with `line` appended unless it is empty.
pub open spec fn push_nonempty(lines: Seq<Seq<char>>, line: Seq<char>) -> Seq<Seq<char>> {
    if line.len() == 0 {
        lines
    } else {
        lines.push(line)
    }
}

/// The non-empty lines that `text` completes with a line feed, and where its
/// unfinished last line starts.
pub open spec fn split_state(text: Seq<char>) -> (Seq<Seq<char>>, int)
    decreases text.len(),
{
    if text.len() == 0 {
        (Seq::empty(), 0)
    } else {
        let (lines, start) = split_state(text.drop_last());
        if text.last() == '\n' {
            (push_nonempty(lines, strip_cr(text.subrange(start, text.len() - 1))), text.len() as int)
        } else {
            (lines, start)
        }
    }
}

proof fn lemma_split_start(text: Seq<char>)
    ensures
        0 <= split_state(text).1 <= text.len(),
    decreases text.len(),
{
    if text.len() > 0 {
        lemma_split_start(text.drop_last());
    }
}

/// The non-empty lines of a checklist, in order. Lines end at a line feed,
/// which takes a carriage return just before it along; the last line needs
/// no line feed.
pub open spec fn checklist_lines(text: Seq<char>) -> Seq<Seq<char>> {
    let (lines, start) = split_state(text);
    push_nonempty(lines, text.subrange(start, text.len() as int))
}

/// The rule descriptions that a checklist's text requests, in order: one per
/// non-empty line.
pub fn checklist_descriptions(text: &str) -> (r: Vec<String>)
    ensures
        r.deep_view() == checklist_lines(text@),
{
    let n = text.unicode_len();
    let mut lines: Vec<String> = Vec::new();
    let mut start: usize = 0;
    let mut i: usize = 0;
    while i < n
        invariant
            n == text@.len(),
            0 <= start <= i <= n,
            (lines.deep_view(), start as int) == split_state(text@.take(i as int)),
        decreases n - i,
    {
        proof {
            assert(text@.take(i + 1).drop_last() =~= text@.take(i as int));
            assert(text@.take(i + 1).last() == text@[i as int]);
        }
        let c = text.get_char(i);
        if c == '\n' {
            let mut end = i;
            if end > start && text.get_char(end - 1) == '\r' {
                end = end - 1;
            }
            let line = text.substring_char(start, end);
            proof {
                assert(text@.take(i + 1).subrange(start as int, i as int) =~= text@.subrange(start as int, i as int));
                assert(strip_cr(text@.subrange(start as int, i as int)) =~= line@);
            }
            if line.unicode_len() > 0 {
                let ghost before = lines.deep_view();
                lines.push(line.to_owned());
                assert(lines.deep_view() =~= before.push(line@));
            }
            start = i + 1;
        }
        i += 1;
    }
    proof {
        assert(text@.take(n as int) =~= text@);
        lemma_split_start(text@);
    }
    let last = text.substring_char(start, n);
    if last.unicode_len() > 0 {
        let ghost before = lines.deep_view();
        lines.push(last.to_owned());
        assert(lines.deep_view() =~= before.push(last@));
    }
    lines
}

/// Whether some rule of `rules` has the description `d`.
pub open spec fn describes<R: Rule>(rules: Seq<&R>, d: Seq<char>) -> bool {
    exists|j: int| 0 <= j < rules.len() && #[trigger] rules[j].spec_description() == d
}

/// Whether `rule` is the first rule of `rules` that has the description `d`.
pub open spec fn first_described_by<R: Rule>(rules: Seq<&R>, d: Seq<char>, rule: &R) -> bool {
    exists|j: int|
        0 <= j < rules.len() && rules[j] == rule && #[trigger] rules[j].spec_description() == d && forall|
            k: int,
        |
            0 <= k < j ==> #[trigger] rules[k].spec_description() != d
}

/// Whether `selected` holds, for each requested description in order, the
/// first available rule with that description.
pub open spec fn selected_in_order<R: Rule>(available: Seq<&R>, requested: Seq<Seq<char>>, selected: Seq<&R>) -> bool {
    &&& selected.len() == requested.len()
    &&& forall|i: int|
        0 <= i < requested.len() ==> #[trigger] first_described_by(available, requested[i], selected[i])
}

/// Whether the `k`-th requested description is the first one that no
/// available rule has.
pub open spec fn first_unmatched<R: Rule>(available: Seq<&R>, requested: Seq<Seq<char>>, k: int) -> bool {
    &&& 0 <= k < requested.len()
    &&& !describes(available, requested[k])
    &&& forall|m: int| 0 <= m < k ==> #[trigger] describes(available, requested[m])
}

/// The texts of a sequence of string slices.
pub open spec fn texts_of(ds: Seq<&str>) -> Seq<Seq<char>> {
    ds.map_values(|d: &str| d@)
}

/// Whether every requested description is one that some rule has.
pub open spec fn all_described<R: Rule>(rules: Seq<&R>, requested: Seq<Seq<char>>) -> bool {
    forall|i: int| 0 <= i < requested.len() ==> #[trigger] describes(rules, requested[i])
}

/// Whether `e` reports, as not found, the first requested description that
/// no rule has.
pub open spec fn not_found_for_first_unmatched<R: Rule>(
    rules: Seq<&R>,
    requested: Seq<Seq<char>>,
    e: FilterError,
) -> bool {
    exists|k: int|
        #[trigger] first_unmatched(rules, requested, k) && (e matches FilterError::RequestedRuleNotFound {
            rule_description,
        } && rule_description@ == requested[k])
}

fn position_of_description<R: Rule>(rules: &[&R], wanted: &str) -> (r: Option<usize>)
    ensures
        r matches Some(j) ==> j < rules@.len() && rules@[j as int].spec_description() == wanted@ && forall|
            k: int,
        | 0 <= k < j ==> #[trigger] rules@[k].spec_description() != wanted@,
        r is None ==> !describes(rules@, wanted@),
{
    let mut j: usize = 0;
    while j < rules.len()
        invariant
            0 <= j <= rules@.len(),
            forall|k: int| 0 <= k < j ==> #[trigger] rules@[k].spec_description() != wanted@,
        decreases rules@.len() - j,
    {
        if same_text(rules[j].description(), wanted) {
            return Some(j);
        }
        j += 1;
    }
    None
}

/// Narrows `available_rules` down to those that `desired_rule_descriptions`
/// asks for, in the order asked, each description matched exactly against
/// the rules' descriptions. Fails, without a partial result, on the first
/// description that no available rule has.
pub fn filter_to_requested_rules_by_description<'r, R: Rule>(
    available_rules: &[&'r R],
    desired_rule_descriptions: &[&str],
) -> (r: Result<Vec<&'r R>, FilterError>)
    ensures
        r is Ok <==> all_described(available_rules@, texts_of(desired_rule_descriptions@)),
        r matches Ok(v) ==> selected_in_order(available_rules@, texts_of(desired_rule_descriptions@), v@),
        r matches Err(e) ==> not_found_for_first_unmatched(
            available_rules@,
            texts_of(desired_rule_descriptions@),
            e,
        ),
{
    let ghost requested = texts_of(desired_rule_descriptions@);
    let mut rules: Vec<&'r R> = Vec::new();
    let mut i: usize = 0;
    while i < desired_rule_descriptions.len()
        invariant
            requested == texts_of(desired_rule_descriptions@),
            0 <= i <= desired_rule_descriptions@.len(),
            rules@.len() == i,
            forall|m: int| 0 <= m < i ==> #[trigger] describes(available_rules@, requested[m]),
            forall|m: int| 0 <= m < i ==> #[trigger] first_described_by(available_rules@, requested[m], rules@[m]),
        decreases desired_rule_descriptions@.len() - i,
    {
        let wanted = desired_rule_descriptions[i];
        let j = match position_of_description(available_rules, wanted) {
            Some(j) => j,
            None => {
                assert(first_unmatched(available_rules@, requested, i as int));
                return Err(FilterError::RequestedRuleNotFound { rule_description: wanted.to_owned() });
            },
        };
        assert(describes(available_rules@, requested[i as int]));
        assert(first_described_by(available_rules@, requested[i as int], available_rules@[j as int]));
        rules.push(available_rules[j]);
        i += 1;
    }
    Ok(rules)
}

/// Whether `e` is a read error whose text is `message`.
pub open spec fn read_error_saying(e: FilterError, message: Seq<char>) -> bool {
    e matches FilterError::RuleChecklistReadError(m) && m@ == message
}

/// What a filter over the checklist `text` gives, as
/// `filter_to_requested_rules_by_description` states it.
pub open spec fn filtered_by_lines<'r, R: Rule>(
    available: Seq<&'r R>,
    text: Seq<char>,
    r: Result<Vec<&'r R>, FilterError>,
) -> bool {
    &&& r is Ok <==> all_described(available, checklist_lines(text))
    &&& r matches Ok(v) ==> selected_in_order(available, checklist_lines(text), v@)
    &&& r matches Err(e) ==> not_found_for_first_unmatched(available, checklist_lines(text), e)
}

fn message_with_path(lead: &str, path: &str) -> (r: String)
    ensures
        r@ == lead@ + path@,
{
    let mut m = lead.to_owned();
    m.append(path);
    m
}

/// Narrows `available_rules` down to the rules that the checklist file at
/// `checklist_path` lists, one description per non-empty line, in the order
/// listed. `checklist` is what reading that file gave; an unopened or
/// unreadable file is a read error naming the path.
pub fn filter_to_requested_rules_from_checklist_file<'r, R: Rule>(
    checklist_path: &str,
    checklist: &ChecklistFile,
    available_rules: &[&'r R],
) -> (r: Result<Vec<&'r R>, FilterError>)
    ensures
        *checklist == ChecklistFile::NotOpened ==> (r matches Err(e) && read_error_saying(
            e,
            "Could not open the culture checklist file, "@ + checklist_path@,
        )),
        *checklist == ChecklistFile::Unreadable ==> (r matches Err(e) && read_error_saying(
            e,
            "Difficulty reading lines of the culture checklist file, "@ + checklist_path@,
        )),
        checklist matches ChecklistFile::Read(text) ==> filtered_by_lines(available_rules@, text@, r),
{
    let text = match checklist {
        ChecklistFile::NotOpened => {
            return Err(
                FilterError::RuleChecklistReadError(
                    message_with_path("Could not open the culture checklist file, ", checklist_path),
                ),
            );
        },
        ChecklistFile::Unreadable => {
            return Err(
                FilterError::RuleChecklistReadError(
                    message_with_path("Difficulty reading lines of the culture checklist file, ", checklist_path),
                ),
            );
        },
        ChecklistFile::Read(text) => text,
    };
    let lines = checklist_descriptions(text.as_str());
    let mut refs: Vec<&str> = Vec::new();
    let mut k: usize = 0;
    while k < lines.len()
        invariant
            0 <= k <= lines@.len(),
            texts_of(refs@) == lines.deep_view().take(k as int),
        decreases lines@.len() - k,
    {
        let ghost before = refs@;
        refs.push(lines[k].as_str());
        assert(texts_of(refs@) =~= texts_of(before).push(lines@[k as int]@));
        assert(lines.deep_view().take(k + 1) =~= lines.deep_view().take(k as int).push(lines@[k as int]@));
        k += 1;
    }
    assert(lines.deep_view().take(lines@.len() as int) =~= lines.deep_view());
    filter_to_requested_rules_by_description(available_rules, refs.as_slice())
}

/// With distinct descriptions, filtering picks for each requested
/// description the very rule that has it, so the result lists the rules in
/// the order they were requested: requesting [C, A] of [A, B, C] gives
/// [C, A].
pub proof fn lemma_filter_keeps_request_order<R: Rule>(
    available: Seq<&R>,
    requested: Seq<Seq<char>>,
    selected: Seq<&R>,
    i: int,
    j: int,
)
    requires
        forall|a: int, b: int|
            0 <= a < available.len() && 0 <= b < available.len() && a != b ==> #[trigger] available[a].spec_description()
                != #[trigger] available[b].spec_description(),
        selected_in_order(available, requested, selected),
        0 <= i < requested.len(),
        0 <= j < available.len(),
        available[j].spec_description() == requested[i],
    ensures
        selected[i] == available[j],
{
    assert(first_described_by(available, requested[i], selected[i]));
}

/// What is found at a path.
#[derive(Clone, Copy, Debug, PartialEq, Eq, Hash, Structural)]
pub enum PathKind {
    /// A file.
    File,
    /// A directory.
    Directory,
    /// Nothing, or something that is neither.
    Other,
}

/// A place where a checklist file may be: the default checklist file name
/// joined to one of the directories searched, and whether a file is there.
#[derive(Clone, Debug, PartialEq, Eq, Hash)]
pub struct ChecklistCandidate {
    /// The candidate path.
    pub path: String,
    /// Whether a file exists at `path`.
    pub is_file: bool,
}

/// Whether `k` is the first candidate from `skip` on where a file exists.
pub open spec fn first_existing_from(candidates: Seq<ChecklistCandidate>, skip: int, k: int) -> bool {
    &&& skip <= k < candidates.len()
    &&& candidates[k].is_file
    &&& forall|m: int| skip <= m < k ==> !(#[trigger] candidates[m]).is_file
}

/// Where the search starts among the candidates: with the path itself when
/// it is a directory, with its parent otherwise.
pub open spec fn search_start(kind: PathKind) -> int {
    if kind == PathKind::Directory {
        0
    } else {
        1
    }
}

/// Finds the checklist file to use. When `initial` is itself a file, that is
/// it. Otherwise the search goes through `initial` (when it is a directory)
/// or its parent, then each further ancestor, for a file with the default
/// checklist name. `candidates[k]` is that name joined to the `k`-th path of
/// the chain that starts with `initial` and goes up one parent at a time.
pub fn find_extant_culture_file(
    initial: &str,
    initial_kind: PathKind,
    candidates: &Vec<ChecklistCandidate>,
) -> (r: Option<String>)
    ensures
        initial_kind == PathKind::File ==> (r matches Some(p) && p@ == initial@),
        initial_kind != PathKind::File ==> (r is Some <==> exists|k: int|
            #[trigger] first_existing_from(candidates@, search_start(initial_kind), k)),
        initial_kind != PathKind::File ==> (r matches Some(p) ==> exists|k: int|
            #[trigger] first_existing_from(candidates@, search_start(initial_kind), k) && p@
                == candidates@[k].path@),
{
    if initial_kind == PathKind::File {
        return Some(initial.to_owned());
    }
    let skip: usize = if initial_kind == PathKind::Directory {
        0
    } else {
        1
    };
    let mut k: usize = skip;
    while k < candidates.len()
        invariant
            initial_kind != PathKind::File,
            skip == search_start(initial_kind),
            skip <= k,
            forall|m: int| skip <= m < k && m < candidates@.len() ==> !(#[trigger] candidates@[m]).is_file,
        decreases candidates@.len() - k,
    {
        if candidates[k].is_file {
            assert(first_existing_from(candidates@, skip as int, k as int));
            return Some(candidates[k].path.clone());
        }
        k += 1;
    }
    assert forall|k2: int| !#[trigger] first_existing_from(candidates@, skip as int, k2) by {
        if first_existing_from(candidates@, skip as int, k2) {
            assert(!candidates@[k2].is_file);
        }
    }
    None
}

/// Picks the checklist for a run. A requested checklist path must be a
/// file, else the run fails with a read error that names it; without a
/// request, the discovered checklist file is used, if any. `None` means that
/// all the default rules apply.
pub fn checklist_to_use(
    requested: Option<String>,
    requested_is_file: bool,
    discovered: Option<String>,
) -> (r: Result<Option<String>, FilterError>)
    ensures
        requested matches Some(f) ==> (requested_is_file ==> (r matches Ok(Some(p)) && p@ == f@)),
        requested matches Some(f) ==> (!requested_is_file ==> (r matches Err(e) && read_error_saying(
            e,
            "Could not find requested rules checklist file, "@ + f@,
        ))),
        requested is None ==> r == Ok::<Option<String>, FilterError>(discovered),
{
    match requested {
        Some(f) => if requested_is_file {
            Ok(Some(f))
        } else {
            Err(
                FilterError::RuleChecklistReadError(
                    message_with_path("Could not find requested rules checklist file, ", f.as_str()),
                ),
            )
        },
        None => Ok(discovered),
    }
}

} // verus!
