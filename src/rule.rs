//! The `Rule` trait and the context that rules are evaluated against.
use vstd::prelude::*;
use crate::file::DirListing;
use crate::outcome::RuleOutcome;

verus! {

/// The role a dependency plays for the package that declares it.
#[derive(Clone, Copy, Debug, PartialEq, Eq, Hash, Structural)]
pub enum DependencyKind {
    /// An ordinary dependency.
    Normal,
    /// A dependency of tests, examples and benchmarks only.
    Development,
    /// A dependency of the build script.
    Build,
    /// A kind that the metadata gave and that none of the others names.
    Unknown,
}

/// A dependency declared by a package.
#[derive(Clone, Debug, PartialEq, Eq)]
pub struct Dependency {
    /// The name of the depended-on package.
    pub name: String,
    /// What the dependency is for.
    pub kind: DependencyKind,
}

/// A package of the project under evaluation.
#[derive(Clone, Debug, PartialEq, Eq)]
pub struct Package {
    /// The package's name.
    pub name: String,
    /// The package's declared dependencies, of every kind.
    pub dependencies: Vec<Dependency>,
}

/// The parts of the project's build metadata that rules read.
#[derive(Clone, Debug, PartialEq, Eq)]
pub struct ProjectMetadata {
    /// The workspace root directory; empty where none was reported.
    pub workspace_root: String,
    /// The packages of the workspace.
    pub packages: Vec<Package>,
}

/// What running an external tool (a build, a test run) produced.
#[derive(Clone, Debug, PartialEq, Eq)]
pub enum ToolRun {
    /// The tool was not run for this evaluation.
    NotRun,
    /// The tool could not be started.
    LaunchFailed,
    /// The tool ran to completion. `stdout` is its standard output where that
    /// is valid UTF-8.
    Finished { success: bool, stdout: Option<String> },
}

/// What was observed of the project on disk and from its tools, gathered
/// before the rules are evaluated.
#[derive(Clone, Debug, PartialEq, Eq)]
pub struct ProjectSurvey {
    /// The entries of the directory that holds the manifest.
    pub project_dir: DirListing,
    /// The entries of the workspace root, where the metadata names one that
    /// holds a manifest of its own.
    pub workspace_dir: DirListing,
    /// The entries of the `.github` directory beside the manifest.
    pub github_dir: DirListing,
    /// The entries of the `.github` directory of the workspace root.
    pub workspace_github_dir: DirListing,
    /// For each directory above the manifest, nearest first, the names of
    /// the subdirectories it holds.
    pub ancestor_subdirs: Vec<Vec<String>>,
    /// For each package of the metadata, in order, whether cleaning its
    /// build products succeeded.
    pub clean_results: Vec<bool>,
    /// The build of the project, with machine-readable messages.
    pub build_run: ToolRun,
    /// The test run of the project.
    pub test_run: ToolRun,
}

/// Everything a rule may consult while it is evaluated. Built once per check
/// and shared by every rule of that check.
#[derive(Clone, Debug, PartialEq, Eq)]
pub struct RuleContext {
    /// The path of the project's manifest file.
    pub cargo_manifest_file_path: String,
    /// Whether the caller asked for additional explanations.
    pub verbose: bool,
    /// Whether this evaluation runs inside a test run that an evaluation
    /// started, where running the tests again would recurse.
    pub nested_evaluation: bool,
    /// The project's build metadata; `None` where reading it failed.
    pub metadata: Option<ProjectMetadata>,
    /// What was observed of the project.
    pub survey: ProjectSurvey,
}

/// The command-line options of a culture check.
#[derive(Clone, Debug, PartialEq, Eq, Hash)]
pub enum Opt {
    /// Check the project's culture.
    Culture {
        /// The location of the project's manifest.
        manifest_path: String,
        /// The checklist file that lists the rules to check, one description
        /// per line; when absent, a checklist file is looked for next to the
        /// project and above it, and failing that every default rule applies.
        culture_checklist_file_path: Option<String>,
        /// Whether to give additional explanations.
        verbose: bool,
    },
}

/// A project-level rule: a description that identifies it and summarises
/// what it asks, and an evaluation against a context.
pub trait Rule {
    /// The rule's description, as text.
    spec fn spec_description(&self) -> Seq<char>;

    /// The outcome of the rule for `context`.
    spec fn spec_evaluate(&self, context: RuleContext) -> RuleOutcome;

    /// The rule's description. It identifies the rule within a catalog.
    fn description(&self) -> (r: &str)
        ensures
            r@ == self.spec_description(),
    ;

    /// Evaluates the rule against `context`.
    fn evaluate(&self, context: &RuleContext) -> (r: RuleOutcome)
        ensures
            r == self.spec_evaluate(*context),
    ;
}

} // verus!
