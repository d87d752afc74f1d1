use std::collections::HashMap;
use std::path::{Path, PathBuf};

use tester::{Context, ContextCase, Definition, FileProbe, Required, TesterError, TimeSpan};

/// The catalogs of these tests hold no stage, so the type of their
/// verification functions does not matter.
type NoCheck = ();

fn text_field(item: &serde_json::Value, name: &str) -> Result<String, serde_json::Error> {
    match item.get(name).and_then(|value| value.as_str()) {
        Some(text) => Ok(text.to_string()),
        None => Err(<serde_json::Error as serde::de::Error>::custom(format!("missing field `{name}`"))),
    }
}

/// Decodes a stage list: a JSON array of objects with the three fields of a
/// [`ContextCase`].
fn decode(json: &str) -> Result<Vec<ContextCase>, serde_json::Error> {
    let document: serde_json::Value = serde_json::from_str(json)?;
    let items = match document.as_array() {
        Some(items) => items,
        None => return Err(<serde_json::Error as serde::de::Error>::custom("expected a sequence")),
    };
    let mut cases = Vec::new();
    for item in items {
        cases.push(ContextCase {
            slug: text_field(item, "slug")?,
            title: text_field(item, "title")?,
            log_prefix: text_field(item, "log_prefix")?,
        });
    }
    Ok(cases)
}

fn probe(path: &Path) -> FileProbe {
    if path.exists() {
        FileProbe::Found { mode: None }
    } else {
        FileProbe::Missing
    }
}

/// Configures a run as a driver does: decodes the stage list that the
/// environment names and looks for the program under test.
fn from_env(env: HashMap<String, String>, definition: &Definition<NoCheck>) -> Result<Context, TesterError> {
    let env: Vec<(String, String)> = env.into_iter().collect();
    let needed = Context::required(&env)?;
    let decoded = decode(needed.test_cases_json);
    let executable_path = Path::new(needed.repository_dir).join(&definition.executable_name);
    let found = probe(&executable_path);
    Context::from_env(env, decoded, executable_path, &found)
}

fn pairs(entries: &[(&str, &str)]) -> Vec<(String, String)> {
    entries.iter().map(|(name, value)| (name.to_string(), value.to_string())).collect()
}

fn one_case() -> Vec<ContextCase> {
    vec![ContextCase { slug: "test".to_string(), title: "Test".to_string(), log_prefix: "test".to_string() }]
}

const REQUIRED: [(&str, &str); 2] =
    [("STACKCLASS_REPOSITORY_DIR", "/tmp"), ("STACKCLASS_TEST_CASES_JSON", "[...]")];

fn configure(extra: &[(&str, &str)]) -> Result<Context, TesterError> {
    let mut env = pairs(&REQUIRED);
    env.extend(pairs(extra));
    Context::from_env(env, Ok(one_case()), PathBuf::from("/tmp/prog"), &FileProbe::Found { mode: None })
}

#[test]
fn test_requires_app_dir() {
    let env = HashMap::from([(
        "STACKCLASS_TEST_CASES_JSON".to_string(),
        r#"[{ "slug": "test", "log_prefix": "test", "title": "Test" }]"#.to_string(),
    )]);

    let result = from_env(env, &Definition::default());
    assert!(result.is_err(), "Expected an error due to missing STACKCLASS_REPOSITORY_DIR");

    if let Err(err) = result {
        assert!(
            matches!(err, TesterError::MissingEnvVar(_)),
            "Expected MissingEnvVar error, got {err:?}",
        );
    }
}

#[test]
fn test_valid_test_cases() {
    let env = HashMap::from([
        ("STACKCLASS_REPOSITORY_DIR".to_string(), "/tmp".to_string()),
        (
            "STACKCLASS_TEST_CASES_JSON".to_string(),
            r#"[{ "slug": "test", "log_prefix": "test", "title": "Test" }]"#.to_string(),
        ),
    ]);

    let result = from_env(env, &Definition::default());
    assert!(result.is_ok(), "Expected successful context creation");
}

#[test]
fn test_empty_test_cases() {
    let env = HashMap::from([
        ("STACKCLASS_REPOSITORY_DIR".to_string(), "/tmp".to_string()),
        ("STACKCLASS_TEST_CASES_JSON".to_string(), "[]".to_string()),
    ]);

    let result = from_env(env, &Definition::default());
    assert!(matches!(result, Err(TesterError::InvalidTestCase(_))));
}

#[test]
fn test_invalid_test_case_fields() {
    let test_cases = [
        (r#"[{ "slug": "", "log_prefix": "test", "title": "Test" }]"#, "empty slug"),
        (r#"[{ "slug": "test", "log_prefix": "", "title": "Test" }]"#, "empty log_prefix"),
        (r#"[{ "slug": "test", "log_prefix": "test", "title": "" }]"#, "empty title"),
    ];

    for (json, description) in test_cases {
        let env = HashMap::from([
            ("STACKCLASS_REPOSITORY_DIR".to_string(), "/tmp".to_string()),
            ("STACKCLASS_TEST_CASES_JSON".to_string(), json.to_string()),
        ]);

        let result = from_env(env, &Definition::default());
        assert!(
            matches!(result, Err(TesterError::InvalidTestCase(_))),
            "Expected InvalidTestCase for case: {description}",
        );
    }
}

#[test]
fn test_executable_not_found() {
    let env = HashMap::from([
        ("STACKCLASS_REPOSITORY_DIR".to_string(), "/nonexistent".to_string()),
        (
            "STACKCLASS_TEST_CASES_JSON".to_string(),
            r#"[{ "slug": "test", "log_prefix": "test", "title": "Test" }]"#.to_string(),
        ),
    ]);

    let result = from_env(env, &Definition::default());
    assert!(matches!(result, Err(TesterError::ExecutableNotFound(_))));
}

#[test]
fn test_timeout_parsing() {
    let env = HashMap::from([
        ("STACKCLASS_REPOSITORY_DIR".to_string(), "/tmp".to_string()),
        (
            "STACKCLASS_TEST_CASES_JSON".to_string(),
            r#"[{ "slug": "test", "log_prefix": "test", "title": "Test" }]"#.to_string(),
        ),
        ("STACKCLASS_TIMEOUT_SECONDS".to_string(), "30".to_string()),
    ]);

    let context = from_env(env, &Definition::default()).unwrap();
    assert_eq!(context.timeout, TimeSpan::from_secs(30));
}

#[test]
fn test_debug_flag() {
    let env = HashMap::from([
        ("STACKCLASS_REPOSITORY_DIR".to_string(), "/tmp".to_string()),
        (
            "STACKCLASS_TEST_CASES_JSON".to_string(),
            r#"[{ "slug": "test", "log_prefix": "test", "title": "Test" }]"#.to_string(),
        ),
        ("STACKCLASS_DEBUG".to_string(), "true".to_string()),
    ]);

    let context = from_env(env, &Definition::default()).unwrap();
    assert!(context.is_debug);
}

#[test]
fn test_skip_anti_cheat_flag() {
    let env = HashMap::from([
        ("STACKCLASS_REPOSITORY_DIR".to_string(), "/tmp".to_string()),
        (
            "STACKCLASS_TEST_CASES_JSON".to_string(),
            r#"[{ "slug": "test", "log_prefix": "test", "title": "Test" }]"#.to_string(),
        ),
        ("STACKCLASS_SKIP_ANTI_CHEAT".to_string(), "true".to_string()),
    ]);

    let context = from_env(env, &Definition::default()).unwrap();
    assert!(context.should_skip_anti_cheat);
}

#[test]
fn a_configuration_holds_what_the_environment_says() {
    let env = pairs(&[
        ("STACKCLASS_REPOSITORY_DIR", "/repo"),
        ("STACKCLASS_TEST_CASES_JSON", "[...]"),
        ("STACKCLASS_TIMEOUT_SECONDS", "+45"),
        ("STACKCLASS_DEBUG", "true"),
        ("OTHER", "kept"),
    ]);
    let made = Context::from_env(
        env.clone(),
        Ok(one_case()),
        PathBuf::from("/repo/prog"),
        &FileProbe::Found { mode: Some(0o644) },
    );
    assert_eq!(
        made,
        Ok(Context {
            executable_path: PathBuf::from("/repo/prog"),
            is_debug: true,
            cases: one_case(),
            timeout: TimeSpan::from_secs(45),
            env,
            should_skip_anti_cheat: false,
        })
    );
}

#[test]
fn without_further_variables_the_defaults_hold() {
    let context = configure(&[]).unwrap();
    assert!(!context.is_debug);
    assert!(!context.should_skip_anti_cheat);
    assert_eq!(context.timeout, TimeSpan::from_secs(15));
}

#[test]
fn a_timeout_that_is_no_numeral_falls_back_to_fifteen_seconds() {
    for value in ["", "soon", "-3", "1.5", " 30", "30s", "18446744073709551616"] {
        let context = configure(&[("STACKCLASS_TIMEOUT_SECONDS", value)]).unwrap();
        assert_eq!(context.timeout, TimeSpan::from_secs(15), "{value:?}");
    }
    let context = configure(&[("STACKCLASS_TIMEOUT_SECONDS", "0")]).unwrap();
    assert_eq!(context.timeout, TimeSpan::from_secs(0));
}

#[test]
fn a_flag_is_set_only_by_the_exact_word_true() {
    for value in ["", "1", "yes", "TRUE", "True", " true", "true ", "false"] {
        let context =
            configure(&[("STACKCLASS_DEBUG", value), ("STACKCLASS_SKIP_ANTI_CHEAT", value)]).unwrap();
        assert!(!context.is_debug, "{value:?}");
        assert!(!context.should_skip_anti_cheat, "{value:?}");
    }
}

#[test]
fn a_later_entry_overrides_an_earlier_one_of_the_same_name() {
    let context = configure(&[
        ("STACKCLASS_DEBUG", "true"),
        ("STACKCLASS_TIMEOUT_SECONDS", "5"),
        ("STACKCLASS_DEBUG", "false"),
        ("STACKCLASS_TIMEOUT_SECONDS", "6"),
    ])
    .unwrap();
    assert!(!context.is_debug);
    assert_eq!(context.timeout, TimeSpan::from_secs(6));
}

#[test]
fn each_missing_variable_is_named_repository_first() {
    let found = FileProbe::Found { mode: None };
    let none = Context::from_env(Vec::new(), Ok(one_case()), PathBuf::new(), &found);
    assert_eq!(none, Err(TesterError::MissingEnvVar("STACKCLASS_REPOSITORY_DIR".to_string())));
    let only_dir = Context::from_env(
        pairs(&[("STACKCLASS_REPOSITORY_DIR", "/tmp")]),
        Ok(one_case()),
        PathBuf::new(),
        &found,
    );
    assert_eq!(only_dir, Err(TesterError::MissingEnvVar("STACKCLASS_TEST_CASES_JSON".to_string())));

    assert_eq!(
        Context::required(&Vec::new()),
        Err(TesterError::MissingEnvVar("STACKCLASS_REPOSITORY_DIR".to_string()))
    );
    assert_eq!(
        Context::required(&pairs(&[("STACKCLASS_TEST_CASES_JSON", "[]")])),
        Err(TesterError::MissingEnvVar("STACKCLASS_REPOSITORY_DIR".to_string()))
    );
    assert_eq!(
        Context::required(&pairs(&[
            ("STACKCLASS_TEST_CASES_JSON", "[1]"),
            ("STACKCLASS_REPOSITORY_DIR", "/tmp"),
            ("STACKCLASS_TEST_CASES_JSON", "[2]"),
        ])),
        Ok(Required { repository_dir: &"/tmp".to_string(), test_cases_json: &"[2]".to_string() })
    );
}

#[test]
fn a_stage_list_that_cannot_be_decoded_is_a_parse_error_with_the_decoder_text() {
    for json in ["", "{", "[{ \"slug\": 1 }]", "42", "[{ \"slug\": \"a\", \"title\": \"b\" }]"] {
        let decoded = decode(json);
        let text = decoded.as_ref().unwrap_err().to_string();
        let made = Context::from_env(pairs(&REQUIRED), decoded, PathBuf::new(), &FileProbe::Missing);
        assert_eq!(made, Err(TesterError::JsonParse(text)), "{json:?}");
    }
}

#[test]
fn the_first_blank_field_of_the_first_malformed_case_is_named() {
    let case = |slug: &str, title: &str, log_prefix: &str| ContextCase {
        slug: slug.to_string(),
        title: title.to_string(),
        log_prefix: log_prefix.to_string(),
    };
    let refused = |cases: Vec<ContextCase>| {
        match Context::from_env(pairs(&REQUIRED), Ok(cases), PathBuf::new(), &FileProbe::Missing) {
            Err(TesterError::InvalidTestCase(text)) => text,
            other => panic!("expected InvalidTestCase, got {other:?}"),
        }
    };
    assert_eq!(refused(Vec::new()), "no test case was requested");
    assert_eq!(refused(vec![case("", "t", "p")]), "test case 1 has a blank slug");
    assert_eq!(refused(vec![case("s", "", "p")]), "test case 1 has a blank title");
    assert_eq!(refused(vec![case("s", "t", "")]), "test case 1 has a blank log_prefix");
    assert_eq!(refused(vec![case("", "", "")]), "test case 1 has a blank slug");
    assert_eq!(refused(vec![case("s", "", "")]), "test case 1 has a blank title");
    assert_eq!(refused(vec![case("s", " \t\r\n\u{c}", "p")]), "test case 1 has a blank title");
    assert_eq!(
        refused(vec![case("a", "A", "1"), case("b", "B", "  "), case("", "C", "3")]),
        "test case 2 has a blank log_prefix"
    );
    let mut many: Vec<ContextCase> = (0..11).map(|_| case("s", "t", "p")).collect();
    many.push(case("s", "", "p"));
    assert_eq!(refused(many), "test case 12 has a blank title");
    // One character that is no white space is enough.
    assert!(Context::from_env(
        pairs(&REQUIRED),
        Ok(vec![case(" a", "\u{a0}", "\t-")]),
        PathBuf::new(),
        &FileProbe::Found { mode: None }
    )
    .is_ok());
}

#[test]
fn a_missing_program_is_reported_last_and_with_its_path() {
    let made = Context::from_env(
        pairs(&REQUIRED),
        Ok(one_case()),
        PathBuf::from("/nonexistent/prog"),
        &FileProbe::Missing,
    );
    assert_eq!(made, Err(TesterError::ExecutableNotFound(PathBuf::from("/nonexistent/prog"))));
    // Every other refusal comes first.
    let made = Context::from_env(pairs(&REQUIRED), Ok(Vec::new()), PathBuf::new(), &FileProbe::Missing);
    assert!(matches!(made, Err(TesterError::InvalidTestCase(_))));
    // Whether the program can be executed is not asked here.
    let unreadable = FileProbe::Unreadable(tester::IoFailure {
        kind: std::io::ErrorKind::PermissionDenied,
        message: "denied".to_string(),
    });
    assert!(Context::from_env(pairs(&REQUIRED), Ok(one_case()), PathBuf::new(), &unreadable).is_ok());
}
