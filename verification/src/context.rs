//! The configuration of one run.

use std::path::PathBuf;
use vstd::prelude::*;

use crate::error::TesterError;
use crate::executable::FileProbe;
use crate::text::{blank, decimal, decimal_text, is_blank, parse_decimal, parse_u64};
use crate::time::TimeSpan;

verus! {

/// Seconds that a run may take when the environment sets no timeout.
pub const DEFAULT_RUN_TIMEOUT_SECS: u64 = 15;

/// A stage that was requested for the run.
#[derive(Debug, PartialEq, Eq)]
pub struct ContextCase {
    /// The name of the stage, which selects its case of the catalog.
    pub slug: String,
    /// The title of the stage, for people.
    pub title: String,
    /// The prefix of the log lines of the stage.
    pub log_prefix: String,
}

/// Everything that a run is configured with.
#[derive(Debug, PartialEq, Eq)]
pub struct Context {
    /// Where the program under test is.
    pub executable_path: PathBuf,
    /// Whether failures are reported in the long form.
    pub is_debug: bool,
    /// The stages to run, in order.
    pub cases: Vec<ContextCase>,
    /// How long the run may take.
    pub timeout: TimeSpan,
    /// The environment that the configuration was read from: names and
    /// values, where a later entry overrides an earlier one of the same
    /// name.
    pub env: Vec<(String, String)>,
    /// Whether the stages that guard against cheating are left out.
    pub should_skip_anti_cheat: bool,
}

/// What the environment must name: the directory of the submission, where
/// the program under test is looked for, and the text of the stage list,
/// which is to be decoded.
#[derive(Debug, PartialEq, Eq)]
pub struct Required<'a> {
    /// The value of `STACKCLASS_REPOSITORY_DIR`.
    pub repository_dir: &'a String,
    /// The value of `STACKCLASS_TEST_CASES_JSON`.
    pub test_cases_json: &'a String,
}

/// The value of the variable `name` in `env`: that of the last entry with
/// this name.
pub open spec fn lookup(env: Seq<(String, String)>, name: Seq<char>) -> Option<String>
    decreases env.len(),
{
    if env.len() == 0 {
        None
    } else if env.last().0@ == name {
        Some(env.last().1)
    } else {
        lookup(env.drop_last(), name)
    }
}

/// Whether the variable `name` is set to `true`.
pub open spec fn flag(env: Seq<(String, String)>, name: Seq<char>) -> bool {
    lookup(env, name) matches Some(value) && value@ == "true"@
}

/// The timeout of the run in seconds: the value of
/// `STACKCLASS_TIMEOUT_SECONDS` where that is a decimal numeral, and fifteen
/// otherwise.
pub open spec fn run_timeout_secs(env: Seq<(String, String)>) -> u64 {
    match lookup(env, "STACKCLASS_TIMEOUT_SECONDS"@) {
        Some(value) => match parse_decimal(value@) {
            Some(secs) => secs,
            None => DEFAULT_RUN_TIMEOUT_SECS,
        },
        None => DEFAULT_RUN_TIMEOUT_SECS,
    }
}

/// The name of the first field of `case` that is blank, if one is.
pub open spec fn blank_field(case: ContextCase) -> Option<Seq<char>> {
    if blank(case.slug@) {
        Some("slug"@)
    } else if blank(case.title@) {
        Some("title"@)
    } else if blank(case.log_prefix@) {
        Some("log_prefix"@)
    } else {
        None
    }
}

/// The position of the first case at or after `from` that has a blank
/// field.
pub open spec fn first_malformed(cases: Seq<ContextCase>, from: int) -> Option<int>
    decreases cases.len() - from,
{
    if from < 0 || from >= cases.len() {
        None
    } else if blank_field(cases[from]) is Some {
        Some(from)
    } else {
        first_malformed(cases, from + 1)
    }
}

/// Why a configuration is refused.
pub enum Refusal {
    /// The variable of this name is not set.
    Missing(Seq<char>),
    /// The stage list could not be decoded.
    Undecodable,
    /// The stage list is empty.
    NoCases,
    /// The case at this position has a blank field of this name.
    BlankField(int, Seq<char>),
    /// Nothing exists at the path of the program under test.
    NoExecutable,
}

/// The first reason, if any, to refuse a configuration: a required variable
/// that is not set, a stage list that could not be decoded, that is empty or
/// that holds a case with a blank field, or a program that does not exist.
pub open spec fn refusal<E>(
    env: Seq<(String, String)>,
    decoded: Result<Vec<ContextCase>, E>,
    probe: FileProbe,
) -> Option<Refusal> {
    if lookup(env, "STACKCLASS_REPOSITORY_DIR"@) is None {
        Some(Refusal::Missing("STACKCLASS_REPOSITORY_DIR"@))
    } else if lookup(env, "STACKCLASS_TEST_CASES_JSON"@) is None {
        Some(Refusal::Missing("STACKCLASS_TEST_CASES_JSON"@))
    } else {
        match decoded {
            Err(_) => Some(Refusal::Undecodable),
            Ok(cases) => if cases@.len() == 0 {
                Some(Refusal::NoCases)
            } else {
                match first_malformed(cases@, 0) {
                    Some(at) => Some(Refusal::BlankField(at, blank_field(cases@[at])->Some_0)),
                    None => if probe is Missing {
                        Some(Refusal::NoExecutable)
                    } else {
                        None
                    },
                }
            },
        }
    }
}

/// Whether `made` is what comes of configuring a run from `env`, the
/// decoded stage list, and the path and probe of the program under test.
///
/// The configuration is refused for the first reason that [`refusal`]
/// finds. Otherwise the run is in debug mode, and leaves out the stages
/// against cheating, where the variable for it is set to `true`, and its
/// timeout is [`run_timeout_secs`].
pub open spec fn configured(
    env: Vec<(String, String)>,
    decoded: Result<Vec<ContextCase>, serde_json::Error>,
    executable_path: PathBuf,
    probe: FileProbe,
    made: Result<Context, TesterError>,
) -> bool {
    match refusal(env@, decoded, probe) {
        Some(Refusal::Missing(name)) => made matches Err(TesterError::MissingEnvVar(text))
            && text@ == name,
        Some(Refusal::Undecodable) => made matches Err(TesterError::JsonParse(_)),
        Some(Refusal::NoCases) => made matches Err(TesterError::InvalidTestCase(text)) && text@
            == "no test case was requested"@,
        Some(Refusal::BlankField(at, field)) => made matches Err(
            TesterError::InvalidTestCase(text),
        ) && text@ == "test case "@ + decimal((at + 1) as nat) + " has a blank "@ + field,
        Some(Refusal::NoExecutable) => made == Err::<Context, TesterError>(
            TesterError::ExecutableNotFound(executable_path),
        ),
        None => {
            &&& made matches Ok(context)
            &&& context.executable_path == executable_path
            &&& context.is_debug == flag(env@, "STACKCLASS_DEBUG"@)
            &&& decoded == Ok::<Vec<ContextCase>, serde_json::Error>(context.cases)
            &&& context.timeout@ == run_timeout_secs(env@) as nat * 1_000_000_000
            &&& context.env == env
            &&& context.should_skip_anti_cheat == flag(env@, "STACKCLASS_SKIP_ANTI_CHEAT"@)
        },
    }
}

/// The value of the variable `name` in `env`.
fn env_var<'a>(env: &'a Vec<(String, String)>, name: &str) -> (value: Option<&'a String>)
    ensures
        value == match lookup(env@, name@) {
            Some(found) => Some(&found),
            None => None,
        },
{
    let wanted: String = String::from_str(name);
    let mut i: usize = env.len();
    assert(env@.take(i as int) == env@);
    while i > 0
        invariant
            i <= env@.len(),
            wanted@ == name@,
            lookup(env@, name@) == lookup(env@.take(i as int), name@),
        decreases i,
    {
        let ghost upto: Seq<(String, String)> = env@.take(i as int);
        assert(upto.drop_last() == env@.take(i - 1));
        i -= 1;
        if env[i].0 == wanted {
            return Some(&env[i].1);
        }
    }
    None
}

/// Whether the variable `name` is set to `true`.
fn env_flag(env: &Vec<(String, String)>, name: &str) -> (set: bool)
    ensures
        set == flag(env@, name@),
{
    match env_var(env, name) {
        Some(value) => {
            let truth: String = String::from_str("true");
            *value == truth
        },
        None => false,
    }
}

/// The name of the first field of `case` that is blank, if one is.
fn find_blank_field(case: &ContextCase) -> (name: Option<&'static str>)
    ensures
        match name {
            Some(name) => blank_field(*case) == Some(name@),
            None => blank_field(*case) is None,
        },
{
    if is_blank(case.slug.as_str()) {
        Some("slug")
    } else if is_blank(case.title.as_str()) {
        Some("title")
    } else if is_blank(case.log_prefix.as_str()) {
        Some("log_prefix")
    } else {
        None
    }
}

impl Context {
    /// The two values that a driver works on before the configuration can
    /// be made, provided that both required variables are set. The first
    /// one that is not set is named in the error.
    pub fn required<'a>(env: &'a Vec<(String, String)>) -> (needed: Result<
        Required<'a>,
        TesterError,
    >)
        ensures
            match needed {
                Ok(values) => {
                    &&& lookup(env@, "STACKCLASS_REPOSITORY_DIR"@) == Some(*values.repository_dir)
                    &&& lookup(env@, "STACKCLASS_TEST_CASES_JSON"@) == Some(
                        *values.test_cases_json,
                    )
                },
                Err(err) => err matches TesterError::MissingEnvVar(name) && (if lookup(
                    env@,
                    "STACKCLASS_REPOSITORY_DIR"@,
                ) is None {
                    name@ == "STACKCLASS_REPOSITORY_DIR"@
                } else {
                    name@ == "STACKCLASS_TEST_CASES_JSON"@ && lookup(
                        env@,
                        "STACKCLASS_TEST_CASES_JSON"@,
                    ) is None
                }),
            },
    {
        let repository_dir: &'a String = match env_var(env, "STACKCLASS_REPOSITORY_DIR") {
            Some(dir) => dir,
            None => {
                return Err(
                    TesterError::MissingEnvVar(String::from_str("STACKCLASS_REPOSITORY_DIR")),
                );
            },
        };
        match env_var(env, "STACKCLASS_TEST_CASES_JSON") {
            Some(test_cases_json) => Ok(Required { repository_dir, test_cases_json }),
            None => Err(
                TesterError::MissingEnvVar(String::from_str("STACKCLASS_TEST_CASES_JSON")),
            ),
        }
    }

    /// The configuration that `env` describes.
    ///
    /// `decoded` is the stage list, decoded from the text that
    /// [`Context::required`] gives; `executable_path` is where the program
    /// under test was looked for, and `probe` what was found there.
    /// Neither is consulted before both required variables are known to be
    /// set. What comes of it is stated by [`configured`].
    pub fn from_env(
        env: Vec<(String, String)>,
        decoded: Result<Vec<ContextCase>, serde_json::Error>,
        executable_path: PathBuf,
        probe: &FileProbe,
    ) -> (made: Result<Context, TesterError>)
        ensures
            configured(env, decoded, executable_path, *probe, made),
    {
        if let Err(missing) = Context::required(&env) {
            return Err(missing);
        }
        let cases: Vec<ContextCase> = match decoded {
            Ok(cases) => cases,
            Err(failure) => {
                return Err(TesterError::from(failure));
            },
        };
        if cases.len() == 0 {
            return Err(
                TesterError::InvalidTestCase(String::from_str("no test case was requested")),
            );
        }
        let mut i: usize = 0;
        while i < cases.len()
            invariant
                i <= cases@.len(),
                cases@.len() > 0,
                decoded == Ok::<Vec<ContextCase>, serde_json::Error>(cases),
                lookup(env@, "STACKCLASS_REPOSITORY_DIR"@) is Some,
                lookup(env@, "STACKCLASS_TEST_CASES_JSON"@) is Some,
                first_malformed(cases@, 0) == first_malformed(cases@, i as int),
            decreases cases@.len() - i,
        {
            if let Some(field) = find_blank_field(&cases[i]) {
                let mut text: String = String::from_str("test case ");
                text.append(decimal_text((i as u64) + 1).as_str());
                text.append(" has a blank ");
                text.append(field);
                return Err(TesterError::InvalidTestCase(text));
            }
            i += 1;
        }
        if let FileProbe::Missing = probe {
            return Err(TesterError::ExecutableNotFound(executable_path));
        }
        let is_debug: bool = env_flag(&env, "STACKCLASS_DEBUG");
        let secs: u64 = match env_var(&env, "STACKCLASS_TIMEOUT_SECONDS") {
            Some(value) => match parse_u64(value.as_str()) {
                Some(secs) => secs,
                None => DEFAULT_RUN_TIMEOUT_SECS,
            },
            None => DEFAULT_RUN_TIMEOUT_SECS,
        };
        let should_skip_anti_cheat: bool = env_flag(&env, "STACKCLASS_SKIP_ANTI_CHEAT");
        Ok(
            Context {
                executable_path,
                is_debug,
                cases,
                timeout: TimeSpan::from_secs(secs),
                env,
                should_skip_anti_cheat,
            },
        )
    }
}

} // verus!
