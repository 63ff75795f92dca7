use cargo_culture_kit::{
    check_culture, check_culture_default, evaluate_rules, summary_line, tests_passed_total,
    BuiltinRule, CargoMetadataReadable, CheckError, DirEntryInfo, ExitCode, HasLicenseFile,
    HasReadmeFile, IsSuccess, OutcomeStats, PrintTopic, ProjectMetadata, ProjectSurvey,
    RuleContext, RuleOutcome, ToolRun, UsesPropertyBasedTestLibrary,
};

fn context(entries: Vec<DirEntryInfo>) -> RuleContext {
    RuleContext {
        cargo_manifest_file_path: "/tmp/p/Cargo.toml".to_string(),
        verbose: false,
        nested_evaluation: false,
        metadata: Some(ProjectMetadata { workspace_root: "/tmp/p".to_string(), packages: vec![] }),
        survey: ProjectSurvey {
            project_dir: Some(entries),
            workspace_dir: None,
            github_dir: None,
            workspace_github_dir: None,
            ancestor_subdirs: vec![],
            clean_results: vec![],
            build_run: ToolRun::NotRun,
            test_run: ToolRun::NotRun,
        },
    }
}

fn license() -> DirEntryInfo {
    DirEntryInfo::File { name: Some("LICENSE".to_string()), len: Some(27) }
}

#[test]
fn three_rules_success_failure_undetermined() {
    let succeeds = BuiltinRule::CargoMetadataReadable(CargoMetadataReadable::default());
    let fails = BuiltinRule::HasReadmeFile(HasReadmeFile::default());
    let undetermined = BuiltinRule::UsesPropertyBasedTestLibrary(UsesPropertyBasedTestLibrary::default());
    let report = check_culture(&context(vec![license()]), &[&succeeds, &fails, &undetermined]);
    assert_eq!(3, report.outcomes.len());
    let stats = OutcomeStats::from(&report.outcomes);
    assert_eq!(OutcomeStats { success_count: 1, fail_count: 1, undetermined_count: 1 }, stats);
    assert_eq!(RuleOutcome::Failure, stats.overall());
    assert_eq!(1, report.outcomes.exit_code());
    let texts: Vec<&str> = report.transcript.iter().map(|p| p.text.as_str()).collect();
    assert_eq!(
        vec![
            "Should have a well-formed Cargo.toml file readable by `cargo metadata`",
            " ... ok\n",
            "Should have a README.md file in the project directory.",
            " ... FAILED\n",
            "Should be making an effort to use property based tests.",
            " ... UNDETERMINED\n",
            "result: FAILED. 1 passed. 1 failed. 1 undetermined.\n",
        ],
        texts
    );
    let topics: Vec<PrintTopic> = report.transcript.iter().map(|p| p.topic).collect();
    assert_eq!(PrintTopic::RuleDescription, topics[0]);
    assert_eq!(PrintTopic::RuleEvaluationOutcome, topics[1]);
    assert_eq!(PrintTopic::CheckSummary, topics[6]);
}

#[test]
fn two_successful_rules() {
    let a = BuiltinRule::CargoMetadataReadable(CargoMetadataReadable::default());
    let b = BuiltinRule::HasLicenseFile(HasLicenseFile::default());
    let report = check_culture(&context(vec![license()]), &[&a, &b]);
    let stats = OutcomeStats::from(&report.outcomes);
    assert_eq!(OutcomeStats { success_count: 2, fail_count: 0, undetermined_count: 0 }, stats);
    assert_eq!(RuleOutcome::Success, stats.overall());
    assert!(report.outcomes.is_success());
    assert_eq!(0, report.outcomes.exit_code());
    assert_eq!("result: ok. 2 passed. 0 failed. 0 undetermined.\n", report.transcript[4].text);
}

#[test]
fn same_rule_twice_records_once() {
    let a = BuiltinRule::HasLicenseFile(HasLicenseFile::default());
    let report = evaluate_rules(&context(vec![license()]), &[&a, &a]);
    assert_eq!(1, report.outcomes.len());
    assert_eq!(4, report.transcript.len());
}

#[test]
fn default_check_covers_every_default_rule() {
    let report = check_culture_default(&context(vec![]));
    assert_eq!(10, report.outcomes.len());
    assert_eq!(21, report.transcript.len());
    let stats = OutcomeStats::from(&report.outcomes);
    assert_eq!(10, stats.success_count + stats.fail_count + stats.undetermined_count);
}

#[test]
fn summary_line_counts() {
    let s = OutcomeStats { success_count: 120, fail_count: 0, undetermined_count: 7 };
    assert_eq!("result: FAILED. 120 passed. 0 failed. 7 undetermined.\n", summary_line(&s));
    let s = OutcomeStats { success_count: usize::MAX, fail_count: 0, undetermined_count: 0 };
    assert_eq!(format!("result: ok. {} passed. 0 failed. 0 undetermined.\n", usize::MAX), summary_line(&s));
}

#[test]
fn print_failure_error_code() {
    let e = CheckError::PrintOutputFailure { topic: PrintTopic::RuleDescription };
    assert_eq!(10, e.exit_code());
    assert_eq!("rule description", PrintTopic::RuleDescription.name());
    let ok: Result<OutcomeStats, CheckError> = Ok(OutcomeStats::empty());
    assert_eq!(2, ok.exit_code());
    let err: Result<OutcomeStats, CheckError> = Err(e);
    assert_eq!(10, err.exit_code());
}

#[test]
fn passed_totals_from_captures() {
    let caps = vec![Some("12".to_string()), None, Some("x1".to_string()), Some("3".to_string())];
    assert_eq!(15, tests_passed_total(&caps));
    assert_eq!(0, tests_passed_total(&vec![]));
    let huge = vec![Some("99999999999999999999999".to_string()), Some("4".to_string())];
    assert_eq!(4, tests_passed_total(&huge));
    let big = vec![Some(usize::MAX.to_string()), Some("4".to_string())];
    assert_eq!(usize::MAX, tests_passed_total(&big));
    assert_eq!(0, tests_passed_total(&vec![Some(String::new())]));
}
