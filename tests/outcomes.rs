use cargo_culture_kit::{
    evaluate_rules, file_present, BuiltinRule, ExitCode, FilePresence, FileProbe, IsSuccess,
    OutcomeStats, OutcomesByDescription, ProjectSurvey, RuleContext, RuleOutcome, ToolRun,
};

fn empty_context() -> RuleContext {
    RuleContext {
        cargo_manifest_file_path: "./Cargo.toml".to_string(),
        verbose: false,
        nested_evaluation: false,
        metadata: None,
        survey: ProjectSurvey {
            project_dir: None,
            workspace_dir: None,
            github_dir: None,
            workspace_github_dir: None,
            ancestor_subdirs: vec![],
            clean_results: vec![],
            build_run: ToolRun::NotRun,
            test_run: ToolRun::NotRun,
        },
    }
}

fn stats(s: usize, f: usize, u: usize) -> OutcomeStats {
    OutcomeStats { success_count: s, fail_count: f, undetermined_count: u }
}

#[test]
fn file_present_follows_file_lifecycle() {
    assert_eq!(FilePresence::Absent, file_present(FileProbe::NotFound));
    assert_eq!(FilePresence::Empty, file_present(FileProbe::Found { len: 0 }));
    assert_eq!(FilePresence::Present, file_present(FileProbe::Found { len: 13 }));
}

#[test]
fn file_present_unknown_when_inspection_fails() {
    assert_eq!(FilePresence::Unknown, file_present(FileProbe::Failed));
}

#[test]
fn outcome_from_file_presence_table() {
    assert_eq!(RuleOutcome::Failure, RuleOutcome::from(FilePresence::Absent));
    assert_eq!(RuleOutcome::Failure, RuleOutcome::from(FilePresence::Empty));
    assert_eq!(RuleOutcome::Success, RuleOutcome::from(FilePresence::Present));
    assert_eq!(RuleOutcome::Undetermined, RuleOutcome::from(FilePresence::Unknown));
}

#[test]
fn outcome_exit_codes() {
    assert_eq!(0, RuleOutcome::Success.exit_code());
    assert_eq!(1, RuleOutcome::Failure.exit_code());
    assert_eq!(2, RuleOutcome::Undetermined.exit_code());
    assert!(RuleOutcome::Success.is_success());
    assert!(!RuleOutcome::Failure.is_success());
    assert!(!RuleOutcome::Undetermined.is_success());
}

#[test]
fn empty_stats_are_undetermined() {
    let s = OutcomeStats::empty();
    assert_eq!(stats(0, 0, 0), s);
    assert_eq!(s, OutcomeStats::default());
    assert_eq!(RuleOutcome::Undetermined, RuleOutcome::from(&s));
    assert!(!s.is_success());
    assert_eq!(2, s.exit_code());
}

#[test]
fn failure_dominates_any_other_counts() {
    for (sc, uc) in [(0, 0), (5, 0), (0, 7), (3, 4), (usize::MAX, usize::MAX)] {
        let s = stats(sc, 1, uc);
        assert_eq!(RuleOutcome::Failure, s.overall());
        assert_eq!(1, s.exit_code());
    }
}

#[test]
fn undetermined_without_failures() {
    for sc in [0, 1, 9, usize::MAX] {
        let s = stats(sc, 0, 2);
        assert_eq!(RuleOutcome::Undetermined, s.overall());
        assert_eq!(2, s.exit_code());
    }
}

#[test]
fn only_successes_succeed() {
    let s = stats(4, 0, 0);
    assert_eq!(RuleOutcome::Success, s.overall());
    assert!(s.is_success());
    assert_eq!(0, s.exit_code());
}

#[test]
fn outcome_map_insert_and_count() {
    let mut m = OutcomesByDescription::new();
    assert!(m.is_empty());
    m.insert("a".to_string(), RuleOutcome::Success);
    m.insert("b".to_string(), RuleOutcome::Failure);
    m.insert("c".to_string(), RuleOutcome::Undetermined);
    m.insert("d".to_string(), RuleOutcome::Success);
    assert_eq!(4, m.len());
    assert_eq!(Some(RuleOutcome::Failure), m.get("b"));
    assert_eq!(None, m.get("e"));
    assert_eq!(stats(2, 1, 1), OutcomeStats::from(&m));
    assert_eq!(1, m.exit_code());
    assert!(!m.is_success());
}

#[test]
fn outcome_map_same_description_overwrites() {
    let mut m = OutcomesByDescription::new();
    m.insert("same".to_string(), RuleOutcome::Failure);
    m.insert("same".to_string(), RuleOutcome::Success);
    assert_eq!(1, m.len());
    assert_eq!(Some(RuleOutcome::Success), m.get("same"));
    assert_eq!(stats(1, 0, 0), OutcomeStats::from(&m));
    assert!(m.is_success());
    assert_eq!(0, m.exit_code());
}

#[test]
fn empty_rule_list_gives_empty_outcomes() {
    let rules: Vec<&BuiltinRule> = vec![];
    let report = evaluate_rules(&empty_context(), &rules);
    assert_eq!(0, report.outcomes.len());
    assert!(report.transcript.is_empty());
    let s = OutcomeStats::from(&report.outcomes);
    assert_eq!(stats(0, 0, 0), s);
    assert_eq!(RuleOutcome::Undetermined, s.overall());
    assert_eq!(2, report.outcomes.exit_code());
}
