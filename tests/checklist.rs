use cargo_culture_kit::{
    check_culture, checklist_descriptions, checklist_to_use, default_rules,
    filter_to_requested_rules_by_description, filter_to_requested_rules_from_checklist_file,
    find_extant_culture_file, BuiltinRule, CargoMetadataReadable, ChecklistCandidate,
    ChecklistFile, ExitCode, FilterError, HasLicenseFile, HasReadmeFile, Package, PathKind,
    ProjectMetadata, ProjectSurvey, Rule, RuleContext, RuleOutcome, ToolRun,
    DEFAULT_CULTURE_CHECKLIST_FILE_NAME,
};

const DIR: &str = "/tmp/checklist_dir";

fn candidates(entries: &[(&str, bool)]) -> Vec<ChecklistCandidate> {
    entries.iter().map(|(p, f)| ChecklistCandidate { path: p.to_string(), is_file: *f }).collect()
}

fn culture_path() -> String {
    format!("{}/{}", DIR, DEFAULT_CULTURE_CHECKLIST_FILE_NAME)
}

#[test]
fn find_extant_file_direct_file_success() {
    let file_path = culture_path();
    let found = find_extant_culture_file(&file_path, PathKind::File, &vec![]);
    assert_eq!(Some(culture_path()), found);
}

#[test]
fn find_extant_file_direct_file_alternate_name_success() {
    let file_path = format!("{}/my_custom_checklist.txt", DIR);
    let found = find_extant_culture_file(&file_path, PathKind::File, &vec![]);
    assert_eq!(Some(format!("{}/my_custom_checklist.txt", DIR)), found);
}

#[test]
fn find_extant_file_from_dir_success() {
    let c = candidates(&[(&culture_path(), true), ("/tmp/.culture", false), ("/.culture", false)]);
    let found = find_extant_culture_file(DIR, PathKind::Directory, &c);
    assert_eq!(Some(culture_path()), found);
}

#[test]
fn find_extant_file_from_dir_ancestor_success() {
    let subdir = format!("{}/kid/grandkid", DIR);
    let c = candidates(&[
        (&format!("{}/kid/grandkid/.culture", DIR), false),
        (&format!("{}/kid/.culture", DIR), false),
        (&culture_path(), true),
        ("/tmp/.culture", false),
        ("/.culture", false),
    ]);
    let found = find_extant_culture_file(&subdir, PathKind::Directory, &c);
    assert_eq!(Some(culture_path()), found);
}

#[test]
fn find_extant_none_when_absent_file() {
    let file_path = culture_path();
    let c = candidates(&[
        (&format!("{}/.culture/.culture", DIR), false),
        (&culture_path(), false),
        ("/tmp/.culture", false),
        ("/.culture", false),
    ]);
    let found = find_extant_culture_file(&file_path, PathKind::Other, &c);
    assert_eq!(None, found);
}

#[test]
fn find_extant_none_for_dir_when_absent_file() {
    let c = candidates(&[(&culture_path(), false), ("/tmp/.culture", false), ("/.culture", false)]);
    let found = find_extant_culture_file(DIR, PathKind::Directory, &c);
    assert_eq!(None, found);
}

#[test]
fn find_extant_skips_the_path_itself_unless_a_directory() {
    let c = candidates(&[("/tmp/x/a.txt/.culture", true), ("/tmp/x/.culture", true)]);
    assert_eq!(Some("/tmp/x/.culture".to_string()), find_extant_culture_file("/tmp/x/a.txt", PathKind::Other, &c));
}

#[test]
fn filter_by_file_error_when_absent_file() {
    let file_path = culture_path();
    let rule_a = BuiltinRule::HasReadmeFile(HasReadmeFile::default());
    let rule_b = BuiltinRule::HasLicenseFile(HasLicenseFile::default());
    match filter_to_requested_rules_from_checklist_file(&file_path, &ChecklistFile::NotOpened, &[&rule_a, &rule_b]) {
        Err(FilterError::RuleChecklistReadError(m)) => {
            assert_eq!(format!("Could not open the culture checklist file, {}", file_path), m)
        },
        Err(_) => panic!("Unexpected error kind"),
        Ok(_) => panic!("Expected an error due to a lack of a checklist file"),
    }
}

#[test]
fn filter_by_file_error_when_unreadable_file() {
    let rule_a = BuiltinRule::HasReadmeFile(HasReadmeFile::default());
    let e = filter_to_requested_rules_from_checklist_file("c.txt", &ChecklistFile::Unreadable, &[&rule_a]).err();
    assert_eq!(
        Some(FilterError::RuleChecklistReadError(
            "Difficulty reading lines of the culture checklist file, c.txt".to_string()
        )),
        e
    );
    assert_eq!(20, e.unwrap().exit_code());
}

#[test]
fn filter_by_file_restricts_to_specified_rules() {
    let file_path = culture_path();
    let rule_a = BuiltinRule::HasReadmeFile(HasReadmeFile::default());
    let rule_b = BuiltinRule::HasLicenseFile(HasLicenseFile::default());
    let raw_rules: &[&BuiltinRule] = &[&rule_a, &rule_b];
    let content = ChecklistFile::Read(rule_a.description().to_string());
    let filtered_rules = filter_to_requested_rules_from_checklist_file(&file_path, &content, raw_rules)
        .expect("Filtering should work when the file is present");
    assert_eq!(1, filtered_rules.len());
    assert_eq!(rule_a.description(), filtered_rules.first().unwrap().description());
}

#[test]
fn filter_by_file_errors_when_requested_rule_not_found() {
    let file_path = culture_path();
    let rule_a = BuiltinRule::HasReadmeFile(HasReadmeFile::default());
    let rule_b = BuiltinRule::HasLicenseFile(HasLicenseFile::default());
    let raw_rules: &[&BuiltinRule] = &[&rule_a, &rule_b];
    let silly_rule = "Every function in the project should halt given reasonable inputs.";
    let content = ChecklistFile::Read(silly_rule.to_string());
    match filter_to_requested_rules_from_checklist_file(&file_path, &content, raw_rules) {
        Err(FilterError::RequestedRuleNotFound { rule_description }) => assert_eq!(silly_rule, rule_description),
        Err(_) => panic!("Unexpected error kind"),
        Ok(_) => panic!("Expected an error due to a lack of a checklist file"),
    }
}

#[test]
fn checklist_lines_skip_blank_lines_and_strip_line_endings() {
    assert_eq!(vec!["a".to_string(), "b b".to_string(), "c".to_string()], checklist_descriptions("a\r\n\n\nb b\nc"));
    assert_eq!(Vec::<String>::new(), checklist_descriptions(""));
    assert_eq!(Vec::<String>::new(), checklist_descriptions("\n\r\n\n"));
    assert_eq!(vec!["x\r".to_string()], checklist_descriptions("x\r"));
    assert_eq!(vec!["only".to_string()], checklist_descriptions("only\n"));
}

#[test]
fn filter_keeps_request_order_and_instances() {
    let rules = default_rules();
    let a = &rules[0];
    let b = &rules[1];
    let c = &rules[2];
    let available: Vec<&BuiltinRule> = vec![a, b, c];
    let wanted = [c.description(), a.description()];
    let filtered = filter_to_requested_rules_by_description(&available, &wanted).expect("all are present");
    assert_eq!(2, filtered.len());
    assert!(std::ptr::eq(filtered[0], c));
    assert!(std::ptr::eq(filtered[1], a));
}

#[test]
fn filter_fails_whole_on_unknown_description() {
    let rules = default_rules();
    let available: Vec<&BuiltinRule> = rules.iter().collect();
    let wanted = [rules[3].description(), "No such rule.", "Nor this one."];
    let e = filter_to_requested_rules_by_description(&available, &wanted).err();
    assert_eq!(Some(FilterError::RequestedRuleNotFound { rule_description: "No such rule.".to_string() }), e);
    assert_eq!(21, e.unwrap().exit_code());
}

#[test]
fn filter_with_empty_request_is_empty() {
    let rules = default_rules();
    let available: Vec<&BuiltinRule> = rules.iter().collect();
    let filtered = filter_to_requested_rules_by_description(&available, &[]).expect("nothing asked");
    assert!(filtered.is_empty());
}

#[test]
fn checklist_choice() {
    assert_eq!(Ok(Some("a/.culture".to_string())), checklist_to_use(Some("a/.culture".to_string()), true, None));
    assert_eq!(
        Err(FilterError::RuleChecklistReadError("Could not find requested rules checklist file, nope".to_string())),
        checklist_to_use(Some("nope".to_string()), false, Some("x".to_string()))
    );
    assert_eq!(Ok(Some("x".to_string())), checklist_to_use(None, false, Some("x".to_string())));
    assert_eq!(Ok(None), checklist_to_use(None, false, None));
}

#[test]
fn check_culture_from_extant_checklist() {
    let selected_rule = CargoMetadataReadable::default();
    let lone_rule_description = selected_rule.description();
    let rules = default_rules();
    let rules_refs: Vec<&BuiltinRule> = rules.iter().collect();
    let checklist = ChecklistFile::Read(format!("{}", lone_rule_description));
    let filtered = filter_to_requested_rules_from_checklist_file(".culture", &checklist, &rules_refs)
        .expect("Should pass scrutiny");
    let context = RuleContext {
        cargo_manifest_file_path: "/tmp/kid/Cargo.toml".to_string(),
        verbose: false,
        nested_evaluation: false,
        metadata: Some(ProjectMetadata {
            workspace_root: "/tmp/kid".to_string(),
            packages: vec![Package { name: "kid".to_string(), dependencies: vec![] }],
        }),
        survey: ProjectSurvey {
            project_dir: Some(vec![]),
            workspace_dir: None,
            github_dir: None,
            workspace_github_dir: None,
            ancestor_subdirs: vec![],
            clean_results: vec![],
            build_run: ToolRun::NotRun,
            test_run: ToolRun::NotRun,
        },
    };
    let outcomes = check_culture(&context, &filtered).outcomes;
    assert_eq!(1, outcomes.len());
    assert_eq!(Some(RuleOutcome::Success), outcomes.get(lone_rule_description));
}
