use std::path::PathBuf;

use tester::{
    Case, Context, ContextCase, Definition, Executable, FileProbe, RunState, Tester, TesterError,
    TimeSpan,
};

type Pid = u32;

/// The verification function of these tests is only a label.
type Label = &'static str;

fn request(slug: &str, number: usize) -> ContextCase {
    ContextCase {
        slug: slug.to_string(),
        title: format!("Stage #{number}: {slug}"),
        log_prefix: format!("stage-{number}"),
    }
}

fn catalog(cases: Vec<Case<Label>>) -> Definition<Label> {
    Definition { executable_name: "your_program.sh".to_string(), cases, ..Default::default() }
}

fn tester(requested: &[&str], cases: Vec<Case<Label>>, debug: bool) -> Tester<Label> {
    let mut env = vec![
        ("STACKCLASS_REPOSITORY_DIR".to_string(), "/repo".to_string()),
        ("STACKCLASS_TEST_CASES_JSON".to_string(), "[...]".to_string()),
    ];
    if debug {
        env.push(("STACKCLASS_DEBUG".to_string(), "true".to_string()));
    }
    let decoded = requested.iter().enumerate().map(|(i, slug)| request(slug, i + 1)).collect();
    Tester::new(
        env,
        catalog(cases),
        Ok(decoded),
        PathBuf::from("/repo/your_program.sh"),
        &FileProbe::Found { mode: Some(0o755) },
    )
    .unwrap()
}

#[test]
fn a_tester_is_refused_as_its_configuration_is() {
    let made = Tester::new(
        Vec::new(),
        catalog(Vec::new()),
        Ok(vec![request("a", 1)]),
        PathBuf::new(),
        &FileProbe::Missing,
    );
    assert!(matches!(made, Err(TesterError::MissingEnvVar(name)) if name == "STACKCLASS_REPOSITORY_DIR"));
}

#[test]
fn validation_passes_when_every_requested_stage_is_in_the_catalog() {
    let tester = tester(&["b", "a", "b"], vec![Case::new("a", "A"), Case::new("b", "B")], false);
    assert_eq!(tester.validate(), Ok(()));
}

#[test]
fn validation_names_the_first_stage_that_the_catalog_lacks() {
    let tester = tester(&["a", "x", "b", "y"], vec![Case::new("a", "A"), Case::new("b", "B")], false);
    assert_eq!(
        tester.validate(),
        Err(TesterError::Custom("tester context does not have test case with slug x".to_string()))
    );
    // Stages against cheating are no part of the catalog that is searched.
    let mut definition = catalog(Vec::new());
    definition.anti_cheat_cases.push(Case::new("a", "A"));
    let tester = Tester::new(
        vec![
            ("STACKCLASS_REPOSITORY_DIR".to_string(), "/repo".to_string()),
            ("STACKCLASS_TEST_CASES_JSON".to_string(), "[...]".to_string()),
        ],
        definition,
        Ok(vec![request("a", 1)]),
        PathBuf::new(),
        &FileProbe::Found { mode: None },
    )
    .unwrap();
    assert_eq!(
        tester.validate(),
        Err(TesterError::Custom("tester context does not have test case with slug a".to_string()))
    );
}

#[test]
fn the_run_has_a_step_for_each_requested_stage_in_the_order_requested() {
    let tester = tester(&["b", "a"], vec![Case::new("a", "A"), Case::new("b", "B")], false);
    let (runner, _) = tester.run::<Pid>(FileProbe::Found { mode: Some(0o755) }).unwrap();
    assert_eq!(runner.state(), RunState::Pending);
    let steps: Vec<(&str, Label, &str, &str)> = runner
        .steps()
        .iter()
        .map(|step| (step.case.slug.as_str(), step.case.function, step.title, step.log_prefix))
        .collect();
    assert_eq!(
        steps,
        vec![("b", "B", "Stage #1: b", "stage-1"), ("a", "A", "Stage #2: a", "stage-2")]
    );
}

#[test]
fn a_requested_stage_without_a_case_is_left_out_of_the_run() {
    let tester = tester(&["x", "a", "y", "a"], vec![Case::new("a", "A")], false);
    let (runner, _) = tester.run::<Pid>(FileProbe::Found { mode: None }).unwrap();
    let titles: Vec<&str> = runner.steps().iter().map(|step| step.title).collect();
    assert_eq!(titles, vec!["Stage #2: a", "Stage #4: a"]);
}

#[test]
fn the_first_case_of_a_slug_is_the_one_that_runs() {
    let mut late = Case::new("a", "second");
    late.timeout = TimeSpan::from_secs(1);
    let tester = tester(&["a"], vec![Case::new("a", "first"), late], false);
    let (runner, _) = tester.run::<Pid>(FileProbe::Found { mode: None }).unwrap();
    assert_eq!(runner.steps().len(), 1);
    assert_eq!(runner.steps()[0].case.function, "first");
    assert_eq!(runner.steps()[0].case.default_timeout(), TimeSpan::from_secs(10));
}

#[test]
fn the_run_is_set_up_with_the_program_of_the_configuration() {
    let tester = tester(&["a"], vec![Case::new("a", "A")], false);
    let (_, executable) = tester.run::<Pid>(FileProbe::Found { mode: Some(0o700) }).unwrap();
    let launch = executable.start(&[], &tester::Probe::Running).unwrap();
    assert_eq!(launch.program, PathBuf::from("/repo/your_program.sh"));
    assert_eq!(executable.timeout(), TimeSpan::from_secs(10));
}

#[test]
fn a_program_that_cannot_be_opened_stops_the_run_before_it_starts() {
    let tester = tester(&["a"], vec![Case::new("a", "A")], false);
    let missing: Result<(_, Executable<Pid>), _> = tester.run(FileProbe::Missing);
    assert!(matches!(
        missing,
        Err(TesterError::ExecutableNotFound(path)) if path == PathBuf::from("/repo/your_program.sh")
    ));
    let locked: Result<(_, Executable<Pid>), _> = tester.run(FileProbe::Found { mode: Some(0o644) });
    assert!(matches!(locked, Err(TesterError::ProcessExecution(text)) if text == "File is not executable"));
}

#[test]
fn the_configuration_is_shown_only_in_debug_mode() {
    let quiet = tester(&["a"], vec![Case::new("a", "A")], false);
    assert!(quiet.print_debug_context().is_none());
    let debug = tester(&["a"], vec![Case::new("a", "A")], true);
    let shown: &Context = debug.print_debug_context().unwrap();
    assert!(shown.is_debug);
    assert_eq!(shown.cases, vec![request("a", 1)]);
    assert_eq!(shown.executable_path, PathBuf::from("/repo/your_program.sh"));
}

#[test]
fn find_case_returns_the_first_case_with_the_slug() {
    let definition = catalog(vec![Case::new("a", "A1"), Case::new("b", "B"), Case::new("a", "A2")]);
    assert_eq!(definition.find_case("a").map(|case| case.function), Some("A1"));
    assert_eq!(definition.find_case("b").map(|case| case.function), Some("B"));
    assert!(definition.find_case("c").is_none());
    assert!(definition.find_case("").is_none());
    assert!(definition.find_case("A").is_none());
    assert!(Definition::<Label>::default().find_case("a").is_none());
}

#[test]
fn a_new_case_has_ten_seconds_and_zero_stands_for_ten_seconds() {
    let mut case = Case::new("bind-to-port", "check");
    assert_eq!(case.slug, "bind-to-port");
    assert_eq!(case.timeout, TimeSpan::from_secs(10));
    assert_eq!(case.default_timeout(), TimeSpan::from_secs(10));
    case.timeout = TimeSpan::from_secs(0);
    assert_eq!(case.default_timeout(), TimeSpan::from_secs(10));
    case.timeout = TimeSpan::from_millis(1);
    assert_eq!(case.default_timeout(), TimeSpan::from_millis(1));
    case.timeout = TimeSpan::from_secs(3_600);
    assert_eq!(case.default_timeout(), TimeSpan::from_secs(3_600));
}
