//! Machinery for checking project-level rules about Rust best practices.
//!
//! A `Rule` is a named predicate over a project. Evaluating a list of rules
//! against a `RuleContext` yields one `RuleOutcome` per rule, gathered in an
//! `OutcomesByDescription`; those reduce to an `OutcomeStats` and to a single
//! overall outcome, which maps onto a process exit code.
//!
//! What the rules consult is observed beforehand and handed over in the
//! context: directory listings, the build metadata, and the output of the
//! project's build and test runs.
pub mod check;
pub mod checklist;
pub mod exit_code;
pub mod file;
pub mod outcome;
pub mod outcomes;
pub mod pattern;
pub mod rule;
pub mod rules;
pub mod stats;
pub mod text;

pub use check::{
    check_culture, check_culture_default, evaluate_rules, summary_line, CheckError, CheckReport,
    PrintItem, PrintTopic,
};
pub use checklist::{
    checklist_descriptions, checklist_to_use, filter_to_requested_rules_by_description,
    filter_to_requested_rules_from_checklist_file, find_extant_culture_file, ChecklistCandidate,
    ChecklistFile, FilterError, PathKind, DEFAULT_CULTURE_CHECKLIST_FILE_NAME,
};
pub use exit_code::ExitCode;
pub use file::{
    search_manifest_and_workspace_dir_for_nonempty_file_name_match,
    shallow_scan_project_dir_for_file_name_match,
    shallow_scan_project_dir_for_nonempty_file_name_match, DirEntryInfo, DirListing,
};
pub use outcome::{file_present, FilePresence, FileProbe, IsSuccess, RuleOutcome};
pub use outcomes::OutcomesByDescription;
pub use rule::{
    Dependency, DependencyKind, Opt, Package, ProjectMetadata, ProjectSurvey, Rule, RuleContext,
    ToolRun,
};
pub use rules::{
    default_rules, packages_cleaned, tests_passed_total, BuildsCleanlyWithoutWarningsOrErrors,
    BuiltinRule, CargoMetadataReadable, HasContinuousIntegrationFile, HasContributingFile,
    HasLicenseFile, HasReadmeFile, HasRustfmtFile, PassesMultipleTests, UnderSourceControl,
    UsesPropertyBasedTestLibrary,
};
pub use stats::OutcomeStats;
