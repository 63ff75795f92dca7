//! The built-in rules.
use vstd::prelude::*;
use crate::outcome::RuleOutcome;
use crate::pattern::{regex_compiles, regex_is_match, regex_named_captures, Pattern};
use crate::file::{
    scan_listing, search_manifest_and_workspace_dir_for_nonempty_file_name_match, search_with_fallback,
    shallow_scan_project_dir_for_nonempty_file_name_match,
};
use crate::rule::{DependencyKind, Package};
use crate::text::{decimal_count, parse_count, same_text};
use crate::rule::{ProjectMetadata, Rule, RuleContext, ToolRun};

verus! {

/// Matches a machine-readable build message reported at warning level.
pub const WARNING_MESSAGE_PATTERN: &'static str = ".*\"level\":\"warning\".*";

/// Whether every package of the metadata had its build products cleaned:
/// there must be metadata, it must name at least one package, and each
/// package must have a successful clean.
pub open spec fn all_packages_cleaned(metadata: Option<ProjectMetadata>, clean_results: Seq<bool>) -> bool {
    &&& metadata is Some
    &&& metadata->0.packages@.len() > 0
    &&& clean_results.len() == metadata->0.packages@.len()
    &&& forall|i: int| 0 <= i < clean_results.len() ==> #[trigger] clean_results[i]
}

/// Decides whether the packages of the project count as cleaned, from the
/// result of cleaning each package of `metadata` in turn. Without metadata,
/// or with no packages, there was nothing to clean, which does not count.
pub fn packages_cleaned(metadata: &Option<ProjectMetadata>, clean_results: &Vec<bool>) -> (r: bool)
    ensures
        r == all_packages_cleaned(*metadata, clean_results@),
{
    let m = match metadata {
        None => return false,
        Some(m) => m,
    };
    if m.packages.len() == 0 || clean_results.len() != m.packages.len() {
        return false;
    }
    let mut i: usize = 0;
    while i < clean_results.len()
        invariant
            0 <= i <= clean_results@.len(),
            forall|j: int| 0 <= j < i ==> #[trigger] clean_results@[j],
        decreases clean_results@.len() - i,
    {
        if !clean_results[i] {
            return false;
        }
        i += 1;
    }
    true
}

/// What a finished build run says about building cleanly: failure when the
/// build failed or reported a warning, undetermined when its output could
/// not be read or the tool did not finish.
pub open spec fn clean_build_outcome(run: ToolRun) -> RuleOutcome {
    match run {
        ToolRun::Finished { success, stdout } => if !success {
            RuleOutcome::Failure
        } else {
            match stdout {
                None => RuleOutcome::Undetermined,
                Some(out) => if !regex_compiles(WARNING_MESSAGE_PATTERN@) {
                    RuleOutcome::Undetermined
                } else if regex_is_match(WARNING_MESSAGE_PATTERN@, out@) {
                    RuleOutcome::Failure
                } else {
                    RuleOutcome::Success
                },
            }
        },
        _ => RuleOutcome::Undetermined,
    }
}

/// Rule: "Should `cargo clean` and `cargo build` without any warnings or
/// errors."
///
/// Every package must be cleaned first, so that the build reports every
/// warning again; then the build must succeed without a warning-level
/// message.
#[derive(Clone, Copy, Debug, Default, PartialEq, Eq, Hash)]
pub struct BuildsCleanlyWithoutWarningsOrErrors;

impl Rule for BuildsCleanlyWithoutWarningsOrErrors {
    open spec fn spec_description(&self) -> Seq<char> {
        "Should `cargo clean` and `cargo build` without any warnings or errors."@
    }

    open spec fn spec_evaluate(&self, context: RuleContext) -> RuleOutcome {
        if !all_packages_cleaned(context.metadata, context.survey.clean_results@) {
            RuleOutcome::Failure
        } else {
            clean_build_outcome(context.survey.build_run)
        }
    }

    fn description(&self) -> (r: &str) {
        "Should `cargo clean` and `cargo build` without any warnings or errors."
    }

    fn evaluate(&self, context: &RuleContext) -> (r: RuleOutcome) {
        if !packages_cleaned(&context.metadata, &context.survey.clean_results) {
            return RuleOutcome::Failure;
        }
        match &context.survey.build_run {
            ToolRun::Finished { success, stdout } => {
                if !*success {
                    return RuleOutcome::Failure;
                }
                let out = match stdout {
                    None => return RuleOutcome::Undetermined,
                    Some(out) => out,
                };
                let warning = match Pattern::compile(WARNING_MESSAGE_PATTERN) {
                    None => return RuleOutcome::Undetermined,
                    Some(p) => p,
                };
                if warning.is_match(out.as_str()) {
                    RuleOutcome::Failure
                } else {
                    RuleOutcome::Success
                }
            },
            _ => RuleOutcome::Undetermined,
        }
    }
}

/// Matches the summary line of a test binary's run, capturing the number of
/// tests that passed as `num_passed`.
pub const TEST_SUMMARY_PATTERN: &'static str = "(?m)^test result: ok. (?P<num_passed>\\d+) passed;";

/// The name of the capture group that holds the number of passed tests.
pub const PASSED_GROUP: &'static str = "num_passed";

/// The number that one captured summary contributes: its count where it
/// spells one, zero otherwise.
pub open spec fn captured_count(capture: Option<Seq<char>>) -> nat {
    match capture {
        Some(t) => match decimal_count(t) {
            Some(v) => v,
            None => 0,
        },
        None => 0,
    }
}

/// The total number of passed tests over the captured summaries.
pub open spec fn passed_total(captures: Seq<Option<Seq<char>>>) -> nat
    decreases captures.len(),
{
    if captures.len() == 0 {
        0
    } else {
        passed_total(captures.drop_last()) + captured_count(captures.last())
    }
}

/// The smaller of `n` and the largest `usize`.
pub open spec fn capped(n: nat) -> nat {
    if n <= usize::MAX {
        n
    } else {
        usize::MAX as nat
    }
}

/// Adds up the passed-test counts captured from the summaries of a test run.
/// A capture that is missing or does not spell a count adds nothing; the sum
/// stops at the largest `usize`.
pub fn tests_passed_total(captures: &Vec<Option<String>>) -> (r: usize)
    ensures
        r as nat == capped(passed_total(captures.deep_view())),
{
    let ghost caps = captures.deep_view();
    let mut total: usize = 0;
    let mut i: usize = 0;
    while i < captures.len()
        invariant
            caps == captures.deep_view(),
            0 <= i <= captures@.len(),
            total as nat == capped(passed_total(caps.take(i as int))),
        decreases captures@.len() - i,
    {
        assert(caps.take(i + 1).drop_last() =~= caps.take(i as int));
        assert(caps.take(i + 1).last() == caps[i as int]);
        let add: usize = match &captures[i] {
            Some(t) => match parse_count(t.as_str()) {
                Some(v) => v,
                None => 0,
            },
            None => 0,
        };
        assert(add as nat == captured_count(caps[i as int]));
        total = total.saturating_add(add);
        i += 1;
    }
    assert(caps.take(captures@.len() as int) =~= caps);
    total
}

/// What a test run says about passing multiple tests: success when the
/// summaries add up to more than one passed test.
pub open spec fn test_run_outcome(run: ToolRun) -> RuleOutcome {
    match run {
        ToolRun::NotRun => RuleOutcome::Undetermined,
        ToolRun::LaunchFailed => RuleOutcome::Failure,
        ToolRun::Finished { success: _, stdout } => match stdout {
            None => RuleOutcome::Undetermined,
            Some(out) => if !regex_compiles(TEST_SUMMARY_PATTERN@) {
                RuleOutcome::Undetermined
            } else if passed_total(regex_named_captures(TEST_SUMMARY_PATTERN@, PASSED_GROUP@, out@)) > 1 {
                RuleOutcome::Success
            } else {
                RuleOutcome::Failure
            },
        },
    }
}

/// Rule: "Should have multiple tests which pass."
///
/// Even a brand-new library comes with one placeholder test, so more than one
/// test must pass. Inside a nested evaluation (one started by the project's
/// own tests) the rule holds without running the tests again.
#[derive(Clone, Copy, Debug, Default, PartialEq, Eq, Hash)]
pub struct PassesMultipleTests;

impl Rule for PassesMultipleTests {
    open spec fn spec_description(&self) -> Seq<char> {
        "Should have multiple tests which pass."@
    }

    open spec fn spec_evaluate(&self, context: RuleContext) -> RuleOutcome {
        if context.nested_evaluation {
            RuleOutcome::Success
        } else {
            test_run_outcome(context.survey.test_run)
        }
    }

    fn description(&self) -> (r: &str) {
        "Should have multiple tests which pass."
    }

    fn evaluate(&self, context: &RuleContext) -> (r: RuleOutcome) {
        if context.nested_evaluation {
            return RuleOutcome::Success;
        }
        match &context.survey.test_run {
            ToolRun::NotRun => RuleOutcome::Undetermined,
            ToolRun::LaunchFailed => RuleOutcome::Failure,
            ToolRun::Finished { success: _, stdout } => {
                let out = match stdout {
                    None => return RuleOutcome::Undetermined,
                    Some(out) => out,
                };
                let summary = match Pattern::compile(TEST_SUMMARY_PATTERN) {
                    None => return RuleOutcome::Undetermined,
                    Some(p) => p,
                };
                let captures = summary.named_captures(PASSED_GROUP, out.as_str());
                if tests_passed_total(&captures) > 1 {
                    RuleOutcome::Success
                } else {
                    RuleOutcome::Failure
                }
            },
        }
    }
}

/// Rule: "Should have a well-formed Cargo.toml file readable by `cargo
/// metadata`".
///
/// The metadata is read once before the rules run, so the rule holds exactly
/// when the context carries it.
#[derive(Clone, Copy, Debug, Default, PartialEq, Eq, Hash)]
pub struct CargoMetadataReadable;

impl Rule for CargoMetadataReadable {
    open spec fn spec_description(&self) -> Seq<char> {
        "Should have a well-formed Cargo.toml file readable by `cargo metadata`"@
    }

    open spec fn spec_evaluate(&self, context: RuleContext) -> RuleOutcome {
        if context.metadata is Some {
            RuleOutcome::Success
        } else {
            RuleOutcome::Failure
        }
    }

    fn description(&self) -> (r: &str) {
        "Should have a well-formed Cargo.toml file readable by `cargo metadata`"
    }

    fn evaluate(&self, context: &RuleContext) -> (r: RuleOutcome) {
        match &context.metadata {
            None => RuleOutcome::Failure,
            Some(_) => RuleOutcome::Success,
        }
    }
}

/// Matches the name of a CONTRIBUTING file, in any case.
pub const CONTRIBUTING_FILE_PATTERN: &'static str = "^(?i)CONTRIBUTING";

/// The outcome of looking for a CONTRIBUTING file: in the project directory
/// or the workspace root, else in either `.github` directory. When none is
/// found, the outcome of the first search stands.
pub open spec fn contributing_outcome(context: RuleContext) -> RuleOutcome {
    let survey = context.survey;
    let initial = search_with_fallback(CONTRIBUTING_FILE_PATTERN@, survey.project_dir, survey.workspace_dir);
    if initial == RuleOutcome::Success
        || scan_listing(CONTRIBUTING_FILE_PATTERN@, survey.github_dir, true) == RuleOutcome::Success
        || scan_listing(CONTRIBUTING_FILE_PATTERN@, survey.workspace_github_dir, true) == RuleOutcome::Success {
        RuleOutcome::Success
    } else {
        initial
    }
}

/// Rule: "Should have a CONTRIBUTING file in the project directory."
///
/// A non-empty file whose name starts with CONTRIBUTING, in any case, in the
/// project directory, the workspace root, or a `.github` directory of either.
#[derive(Clone, Copy, Debug, Default, PartialEq, Eq, Hash)]
pub struct HasContributingFile;

impl Rule for HasContributingFile {
    open spec fn spec_description(&self) -> Seq<char> {
        "Should have a CONTRIBUTING file in the project directory."@
    }

    open spec fn spec_evaluate(&self, context: RuleContext) -> RuleOutcome {
        contributing_outcome(context)
    }

    fn description(&self) -> (r: &str) {
        "Should have a CONTRIBUTING file in the project directory."
    }

    fn evaluate(&self, context: &RuleContext) -> (r: RuleOutcome) {
        let survey = &context.survey;
        let initial = search_manifest_and_workspace_dir_for_nonempty_file_name_match(
            CONTRIBUTING_FILE_PATTERN,
            &survey.project_dir,
            &survey.workspace_dir,
        );
        if initial == RuleOutcome::Success {
            return RuleOutcome::Success;
        }
        if shallow_scan_project_dir_for_nonempty_file_name_match(CONTRIBUTING_FILE_PATTERN, &survey.github_dir)
            == RuleOutcome::Success {
            return RuleOutcome::Success;
        }
        match shallow_scan_project_dir_for_nonempty_file_name_match(
            CONTRIBUTING_FILE_PATTERN,
            &survey.workspace_github_dir,
        ) {
            RuleOutcome::Success => RuleOutcome::Success,
            _ => initial,
        }
    }
}

/// Matches the name of a LICENSE file, in any case, with any suffix.
pub const LICENSE_FILE_PATTERN: &'static str = "^(?i)LICENSE";

/// Rule: "Should have a LICENSE file in the project directory."
///
/// A non-empty file whose name starts with LICENSE, in any case, in the
/// project directory or the workspace root.
#[derive(Clone, Copy, Debug, Default, PartialEq, Eq, Hash)]
pub struct HasLicenseFile;

impl Rule for HasLicenseFile {
    open spec fn spec_description(&self) -> Seq<char> {
        "Should have a LICENSE file in the project directory."@
    }

    open spec fn spec_evaluate(&self, context: RuleContext) -> RuleOutcome {
        search_with_fallback(LICENSE_FILE_PATTERN@, context.survey.project_dir, context.survey.workspace_dir)
    }

    fn description(&self) -> (r: &str) {
        "Should have a LICENSE file in the project directory."
    }

    fn evaluate(&self, context: &RuleContext) -> (r: RuleOutcome) {
        search_manifest_and_workspace_dir_for_nonempty_file_name_match(
            LICENSE_FILE_PATTERN,
            &context.survey.project_dir,
            &context.survey.workspace_dir,
        )
    }
}

/// Matches the name of a README file, with or without an extension.
pub const README_FILE_PATTERN: &'static str = "^README\\.?.*";

/// Rule: "Should have a README.md file in the project directory."
///
/// A non-empty file whose name starts with README in the project directory
/// itself; any extension, or none, is accepted.
#[derive(Clone, Copy, Debug, Default, PartialEq, Eq, Hash)]
pub struct HasReadmeFile;

impl Rule for HasReadmeFile {
    open spec fn spec_description(&self) -> Seq<char> {
        "Should have a README.md file in the project directory."@
    }

    open spec fn spec_evaluate(&self, context: RuleContext) -> RuleOutcome {
        scan_listing(README_FILE_PATTERN@, context.survey.project_dir, true)
    }

    fn description(&self) -> (r: &str) {
        "Should have a README.md file in the project directory."
    }

    fn evaluate(&self, context: &RuleContext) -> (r: RuleOutcome) {
        shallow_scan_project_dir_for_nonempty_file_name_match(README_FILE_PATTERN, &context.survey.project_dir)
    }
}

/// Matches `rustfmt.toml`, optionally with a leading period or a `legacy-`
/// prefix, and nothing after it.
pub const RUSTFMT_FILE_PATTERN: &'static str = "^\\.?(legacy-)?rustfmt.toml$";

/// Rule: "Should have a rustfmt.toml file in the project directory."
///
/// A non-empty formatter configuration file in the project directory or the
/// workspace root.
#[derive(Clone, Copy, Debug, Default, PartialEq, Eq, Hash)]
pub struct HasRustfmtFile;

impl Rule for HasRustfmtFile {
    open spec fn spec_description(&self) -> Seq<char> {
        "Should have a rustfmt.toml file in the project directory."@
    }

    open spec fn spec_evaluate(&self, context: RuleContext) -> RuleOutcome {
        search_with_fallback(RUSTFMT_FILE_PATTERN@, context.survey.project_dir, context.survey.workspace_dir)
    }

    fn description(&self) -> (r: &str) {
        "Should have a rustfmt.toml file in the project directory."
    }

    fn evaluate(&self, context: &RuleContext) -> (r: RuleOutcome) {
        search_manifest_and_workspace_dir_for_nonempty_file_name_match(
            RUSTFMT_FILE_PATTERN,
            &context.survey.project_dir,
            &context.survey.workspace_dir,
        )
    }
}

/// Matches the configuration file of a common continuous integration
/// service, in any case.
pub const CONTINUOUS_INTEGRATION_FILE_PATTERN: &'static str =
    "^(?i)(appveyor|\\.appveyor|\\.drone|\\.gitlab-ci|\\.travis)\\.ya?ml$";

/// Rule: "Should have a file suggesting the use of a continuous integration
/// system."
///
/// A non-empty configuration file of a continuous integration service in the
/// project directory or the workspace root.
#[derive(Clone, Copy, Debug, Default, PartialEq, Eq, Hash)]
pub struct HasContinuousIntegrationFile;

impl Rule for HasContinuousIntegrationFile {
    open spec fn spec_description(&self) -> Seq<char> {
        "Should have a file suggesting the use of a continuous integration system."@
    }

    open spec fn spec_evaluate(&self, context: RuleContext) -> RuleOutcome {
        search_with_fallback(
            CONTINUOUS_INTEGRATION_FILE_PATTERN@,
            context.survey.project_dir,
            context.survey.workspace_dir,
        )
    }

    fn description(&self) -> (r: &str) {
        "Should have a file suggesting the use of a continuous integration system."
    }

    fn evaluate(&self, context: &RuleContext) -> (r: RuleOutcome) {
        search_manifest_and_workspace_dir_for_nonempty_file_name_match(
            CONTINUOUS_INTEGRATION_FILE_PATTERN,
            &context.survey.project_dir,
            &context.survey.workspace_dir,
        )
    }
}

/// Whether `name` is the metadata directory of a known version control
/// system: git, mercurial, bazaar, subversion or darcs.
pub open spec fn is_vcs_dir_name(name: Seq<char>) -> bool {
    ||| name == ".git"@
    ||| name == ".hg"@
    ||| name == ".bzr"@
    ||| name == ".svn"@
    ||| name == "_darcs"@
}

fn vcs_dir_name(name: &str) -> (r: bool)
    ensures
        r == is_vcs_dir_name(name@),
{
    same_text(name, ".git") || same_text(name, ".hg") || same_text(name, ".bzr") || same_text(name, ".svn")
        || same_text(name, "_darcs")
}

/// Whether some directory above the manifest holds a version control
/// metadata directory.
pub open spec fn has_vcs_ancestor(ancestor_subdirs: Seq<Vec<String>>) -> bool {
    exists|i: int, j: int|
        0 <= i < ancestor_subdirs.len() && 0 <= j < ancestor_subdirs[i]@.len()
            && #[trigger] is_vcs_dir_name(ancestor_subdirs[i]@[j]@)
}

/// Rule: "Should be under source control."
///
/// Some directory above the manifest holds the metadata directory of a known
/// version control system.
#[derive(Clone, Copy, Debug, Default, PartialEq, Eq, Hash)]
pub struct UnderSourceControl;

impl Rule for UnderSourceControl {
    open spec fn spec_description(&self) -> Seq<char> {
        "Should be under source control."@
    }

    open spec fn spec_evaluate(&self, context: RuleContext) -> RuleOutcome {
        if has_vcs_ancestor(context.survey.ancestor_subdirs@) {
            RuleOutcome::Success
        } else {
            RuleOutcome::Failure
        }
    }

    fn description(&self) -> (r: &str) {
        "Should be under source control."
    }

    fn evaluate(&self, context: &RuleContext) -> (r: RuleOutcome) {
        let dirs = &context.survey.ancestor_subdirs;
        let mut i: usize = 0;
        while i < dirs.len()
            invariant
                *dirs == context.survey.ancestor_subdirs,
                0 <= i <= dirs@.len(),
                forall|a: int, b: int|
                    0 <= a < i && 0 <= b < dirs@[a]@.len() ==> !#[trigger] is_vcs_dir_name(dirs@[a]@[b]@),
            decreases dirs@.len() - i,
        {
            let names = &dirs[i];
            let mut j: usize = 0;
            while j < names.len()
                invariant
                    *dirs == context.survey.ancestor_subdirs,
                    0 <= i < dirs@.len(),
                    *names == dirs@[i as int],
                    0 <= j <= names@.len(),
                    forall|b: int| 0 <= b < j ==> !#[trigger] is_vcs_dir_name(names@[b]@),
                decreases names@.len() - j,
            {
                if vcs_dir_name(names[j].as_str()) {
                    assert(is_vcs_dir_name(dirs@[i as int]@[j as int]@));
                    return RuleOutcome::Success;
                }
                j += 1;
            }
            i += 1;
        }
        RuleOutcome::Failure
    }
}

/// Matches the name of a known property-based testing library, in any case.
pub const PROPERTY_TEST_LIBRARY_PATTERN: &'static str = "^(?i)(proptest|quickcheck|suppositions).*";

/// Whether the package declares a development dependency whose name matches
/// the pattern compiled from `source`.
pub open spec fn package_uses_library(source: Seq<char>, package: Package) -> bool {
    exists|j: int|
        0 <= j < package.dependencies@.len() && package.dependencies@[j].kind == DependencyKind::Development
            && #[trigger] regex_is_match(source, package.dependencies@[j].name@)
}

/// The outcome of checking every package for a property-based testing
/// library among its development dependencies.
pub open spec fn property_testing_outcome(metadata: Option<ProjectMetadata>) -> RuleOutcome {
    match metadata {
        None => RuleOutcome::Undetermined,
        Some(m) => if m.packages@.len() == 0 || !regex_compiles(PROPERTY_TEST_LIBRARY_PATTERN@) {
            RuleOutcome::Undetermined
        } else if forall|i: int|
            0 <= i < m.packages@.len() ==> #[trigger] package_uses_library(
                PROPERTY_TEST_LIBRARY_PATTERN@,
                m.packages@[i],
            ) {
            RuleOutcome::Success
        } else {
            RuleOutcome::Failure
        },
    }
}

fn uses_library(pattern: &Pattern, package: &Package) -> (r: bool)
    ensures
        r == package_uses_library(pattern@, *package),
{
    let deps = &package.dependencies;
    let mut j: usize = 0;
    while j < deps.len()
        invariant
            *deps == package.dependencies,
            0 <= j <= deps@.len(),
            forall|k: int|
                0 <= k < j && deps@[k].kind == DependencyKind::Development ==> !#[trigger] regex_is_match(
                    pattern@,
                    deps@[k].name@,
                ),
        decreases deps@.len() - j,
    {
        let d = &deps[j];
        if d.kind == DependencyKind::Development && pattern.is_match(d.name.as_str()) {
            return true;
        }
        j += 1;
    }
    false
}

/// Rule: "Should be making an effort to use property based tests."
///
/// Every package declares a development dependency on a known property-based
/// testing library. Undetermined without metadata or without packages.
#[derive(Clone, Copy, Debug, Default, PartialEq, Eq, Hash)]
pub struct UsesPropertyBasedTestLibrary;

impl Rule for UsesPropertyBasedTestLibrary {
    open spec fn spec_description(&self) -> Seq<char> {
        "Should be making an effort to use property based tests."@
    }

    open spec fn spec_evaluate(&self, context: RuleContext) -> RuleOutcome {
        property_testing_outcome(context.metadata)
    }

    fn description(&self) -> (r: &str) {
        "Should be making an effort to use property based tests."
    }

    fn evaluate(&self, context: &RuleContext) -> (r: RuleOutcome) {
        let m = match &context.metadata {
            None => return RuleOutcome::Undetermined,
            Some(m) => m,
        };
        if m.packages.len() == 0 {
            return RuleOutcome::Undetermined;
        }
        let library = match Pattern::compile(PROPERTY_TEST_LIBRARY_PATTERN) {
            None => return RuleOutcome::Undetermined,
            Some(p) => p,
        };
        let mut i: usize = 0;
        while i < m.packages.len()
            invariant
                context.metadata == Some(*m),
                m.packages@.len() > 0,
                regex_compiles(PROPERTY_TEST_LIBRARY_PATTERN@),
                library@ == PROPERTY_TEST_LIBRARY_PATTERN@,
                0 <= i <= m.packages@.len(),
                forall|k: int| 0 <= k < i ==> #[trigger] package_uses_library(library@, m.packages@[k]),
            decreases m.packages@.len() - i,
        {
            if !uses_library(&library, &m.packages[i]) {
                return RuleOutcome::Failure;
            }
            i += 1;
        }
        RuleOutcome::Success
    }
}

/// One of the built-in rules.
#[derive(Clone, Copy, Debug, PartialEq, Eq, Hash)]
pub enum BuiltinRule {
    /// See `CargoMetadataReadable`.
    CargoMetadataReadable(CargoMetadataReadable),
    /// See `HasContributingFile`.
    HasContributingFile(HasContributingFile),
    /// See `HasLicenseFile`.
    HasLicenseFile(HasLicenseFile),
    /// See `HasReadmeFile`.
    HasReadmeFile(HasReadmeFile),
    /// See `HasRustfmtFile`.
    HasRustfmtFile(HasRustfmtFile),
    /// See `HasContinuousIntegrationFile`.
    HasContinuousIntegrationFile(HasContinuousIntegrationFile),
    /// See `BuildsCleanlyWithoutWarningsOrErrors`.
    BuildsCleanlyWithoutWarningsOrErrors(BuildsCleanlyWithoutWarningsOrErrors),
    /// See `PassesMultipleTests`.
    PassesMultipleTests(PassesMultipleTests),
    /// See `UnderSourceControl`.
    UnderSourceControl(UnderSourceControl),
    /// See `UsesPropertyBasedTestLibrary`.
    UsesPropertyBasedTestLibrary(UsesPropertyBasedTestLibrary),
}

impl Rule for BuiltinRule {
    open spec fn spec_description(&self) -> Seq<char> {
        match *self {
            BuiltinRule::CargoMetadataReadable(r) => r.spec_description(),
            BuiltinRule::HasContributingFile(r) => r.spec_description(),
            BuiltinRule::HasLicenseFile(r) => r.spec_description(),
            BuiltinRule::HasReadmeFile(r) => r.spec_description(),
            BuiltinRule::HasRustfmtFile(r) => r.spec_description(),
            BuiltinRule::HasContinuousIntegrationFile(r) => r.spec_description(),
            BuiltinRule::BuildsCleanlyWithoutWarningsOrErrors(r) => r.spec_description(),
            BuiltinRule::PassesMultipleTests(r) => r.spec_description(),
            BuiltinRule::UnderSourceControl(r) => r.spec_description(),
            BuiltinRule::UsesPropertyBasedTestLibrary(r) => r.spec_description(),
        }
    }

    open spec fn spec_evaluate(&self, context: RuleContext) -> RuleOutcome {
        match *self {
            BuiltinRule::CargoMetadataReadable(r) => r.spec_evaluate(context),
            BuiltinRule::HasContributingFile(r) => r.spec_evaluate(context),
            BuiltinRule::HasLicenseFile(r) => r.spec_evaluate(context),
            BuiltinRule::HasReadmeFile(r) => r.spec_evaluate(context),
            BuiltinRule::HasRustfmtFile(r) => r.spec_evaluate(context),
            BuiltinRule::HasContinuousIntegrationFile(r) => r.spec_evaluate(context),
            BuiltinRule::BuildsCleanlyWithoutWarningsOrErrors(r) => r.spec_evaluate(context),
            BuiltinRule::PassesMultipleTests(r) => r.spec_evaluate(context),
            BuiltinRule::UnderSourceControl(r) => r.spec_evaluate(context),
            BuiltinRule::UsesPropertyBasedTestLibrary(r) => r.spec_evaluate(context),
        }
    }

    fn description(&self) -> (r: &str) {
        match self {
            BuiltinRule::CargoMetadataReadable(r) => r.description(),
            BuiltinRule::HasContributingFile(r) => r.description(),
            BuiltinRule::HasLicenseFile(r) => r.description(),
            BuiltinRule::HasReadmeFile(r) => r.description(),
            BuiltinRule::HasRustfmtFile(r) => r.description(),
            BuiltinRule::HasContinuousIntegrationFile(r) => r.description(),
            BuiltinRule::BuildsCleanlyWithoutWarningsOrErrors(r) => r.description(),
            BuiltinRule::PassesMultipleTests(r) => r.description(),
            BuiltinRule::UnderSourceControl(r) => r.description(),
            BuiltinRule::UsesPropertyBasedTestLibrary(r) => r.description(),
        }
    }

    fn evaluate(&self, context: &RuleContext) -> (r: RuleOutcome) {
        match self {
            BuiltinRule::CargoMetadataReadable(r) => r.evaluate(context),
            BuiltinRule::HasContributingFile(r) => r.evaluate(context),
            BuiltinRule::HasLicenseFile(r) => r.evaluate(context),
            BuiltinRule::HasReadmeFile(r) => r.evaluate(context),
            BuiltinRule::HasRustfmtFile(r) => r.evaluate(context),
            BuiltinRule::HasContinuousIntegrationFile(r) => r.evaluate(context),
            BuiltinRule::BuildsCleanlyWithoutWarningsOrErrors(r) => r.evaluate(context),
            BuiltinRule::PassesMultipleTests(r) => r.evaluate(context),
            BuiltinRule::UnderSourceControl(r) => r.evaluate(context),
            BuiltinRule::UsesPropertyBasedTestLibrary(r) => r.evaluate(context),
        }
    }
}

impl BuiltinRule {
    /// Whether evaluating this rule needs a build of the project.
    pub fn runs_build(&self) -> (r: bool)
        ensures
            r == (*self is BuildsCleanlyWithoutWarningsOrErrors),
    {
        match self {
            BuiltinRule::BuildsCleanlyWithoutWarningsOrErrors(_) => true,
            _ => false,
        }
    }

    /// Whether evaluating this rule needs a test run of the project.
    pub fn runs_tests(&self) -> (r: bool)
        ensures
            r == (*self is PassesMultipleTests),
    {
        match self {
            BuiltinRule::PassesMultipleTests(_) => true,
            _ => false,
        }
    }
}

/// Whether no two rules of `rules` share a description.
pub open spec fn descriptions_distinct<R: Rule>(rules: Seq<R>) -> bool {
    forall|i: int, j: int|
        0 <= i < rules.len() && 0 <= j < rules.len() && i != j ==> #[trigger] rules[i].spec_description()
            != #[trigger] rules[j].spec_description()
}

/// The built-in catalog, in the order its rules are evaluated.
pub open spec fn default_catalog() -> Seq<BuiltinRule> {
    seq![
            BuiltinRule::CargoMetadataReadable(CargoMetadataReadable),
            BuiltinRule::HasContributingFile(HasContributingFile),
            BuiltinRule::HasLicenseFile(HasLicenseFile),
            BuiltinRule::HasReadmeFile(HasReadmeFile),
            BuiltinRule::HasRustfmtFile(HasRustfmtFile),
            BuiltinRule::HasContinuousIntegrationFile(HasContinuousIntegrationFile),
            BuiltinRule::BuildsCleanlyWithoutWarningsOrErrors(BuildsCleanlyWithoutWarningsOrErrors),
            BuiltinRule::PassesMultipleTests(PassesMultipleTests),
            BuiltinRule::UnderSourceControl(UnderSourceControl),
            BuiltinRule::UsesPropertyBasedTestLibrary(UsesPropertyBasedTestLibrary)
    ]
}

/// Makes the built-in rules recommended as a starting point. No two of them
/// share a description.
pub fn default_rules() -> (r: Vec<BuiltinRule>)
    ensures
        r@ == default_catalog(),
        descriptions_distinct(r@),
{
    let mut rules: Vec<BuiltinRule> = Vec::new();
    rules.push(BuiltinRule::CargoMetadataReadable(CargoMetadataReadable));
    rules.push(BuiltinRule::HasContributingFile(HasContributingFile));
    rules.push(BuiltinRule::HasLicenseFile(HasLicenseFile));
    rules.push(BuiltinRule::HasReadmeFile(HasReadmeFile));
    rules.push(BuiltinRule::HasRustfmtFile(HasRustfmtFile));
    rules.push(BuiltinRule::HasContinuousIntegrationFile(HasContinuousIntegrationFile));
    rules.push(BuiltinRule::BuildsCleanlyWithoutWarningsOrErrors(BuildsCleanlyWithoutWarningsOrErrors));
    rules.push(BuiltinRule::PassesMultipleTests(PassesMultipleTests));
    rules.push(BuiltinRule::UnderSourceControl(UnderSourceControl));
    rules.push(BuiltinRule::UsesPropertyBasedTestLibrary(UsesPropertyBasedTestLibrary));
    proof {
        lemma_default_catalog_distinct();
    }
    assert(rules@ =~= default_catalog());
    rules
}

/// The descriptions of the built-in catalog are pairwise distinct.
pub proof fn lemma_default_catalog_distinct()
    ensures
        descriptions_distinct(default_catalog()),
{
    reveal_strlit("Should have a well-formed Cargo.toml file readable by `cargo metadata`");
    reveal_strlit("Should have a CONTRIBUTING file in the project directory.");
    reveal_strlit("Should have a LICENSE file in the project directory.");
    reveal_strlit("Should have a README.md file in the project directory.");
    reveal_strlit("Should have a rustfmt.toml file in the project directory.");
    reveal_strlit("Should have a file suggesting the use of a continuous integration system.");
    reveal_strlit("Should `cargo clean` and `cargo build` without any warnings or errors.");
    reveal_strlit("Should have multiple tests which pass.");
    reveal_strlit("Should be under source control.");
    reveal_strlit("Should be making an effort to use property based tests.");
    let texts = seq![
        "Should have a well-formed Cargo.toml file readable by `cargo metadata`"@,
        "Should have a CONTRIBUTING file in the project directory."@,
        "Should have a LICENSE file in the project directory."@,
        "Should have a README.md file in the project directory."@,
        "Should have a rustfmt.toml file in the project directory."@,
        "Should have a file suggesting the use of a continuous integration system."@,
        "Should `cargo clean` and `cargo build` without any warnings or errors."@,
        "Should have multiple tests which pass."@,
        "Should be under source control."@,
        "Should be making an effort to use property based tests."@
    ];
    assert forall|k: int| 0 <= k < 10 implies #[trigger] default_catalog()[k].spec_description() == texts[k] by {}
    assert(texts[0].len() == 70);
    assert(texts[1].len() == 57);
    assert(texts[2].len() == 52);
    assert(texts[3].len() == 54);
    assert(texts[4].len() == 57);
    assert(texts[5].len() == 73);
    assert(texts[6].len() == 70);
    assert(texts[7].len() == 38);
    assert(texts[8].len() == 31);
    assert(texts[9].len() == 55);
    assert(texts[0][7] != texts[6][7]);
    assert(texts[1][14] != texts[4][14]);
    assert forall|a: int, b: int| 0 <= a < 10 && 0 <= b < 10 && a != b implies #[trigger] texts[a] != #[trigger] texts[b] by {
        if texts[a].len() == texts[b].len() {
            assert(texts[a][7] != texts[b][7] || texts[a][14] != texts[b][14]);
        }
    }
}

} // verus!
