//! The errors that the harness reports.

use std::io::ErrorKind;
use std::path::PathBuf;
use vstd::prelude::*;
use vstd::std_specs::convert::FromSpecImpl;

use crate::time::TimeSpan;

verus! {

/// `std::path::PathBuf`, carried through the harness without being read.
#[verifier::external_type_specification]
#[verifier::external_body]
pub struct ExPathBuf(std::path::PathBuf);

/// `std::io::ErrorKind`, carried through the harness without being read.
#[verifier::external_type_specification]
#[verifier::external_body]
pub struct ExErrorKind(std::io::ErrorKind);

/// `serde_json::Error`, the failure of decoding a JSON document.
#[verifier::external_type_specification]
#[verifier::external_body]
pub struct ExJsonError(serde_json::Error);

/// `PathBuf::clone`: the copy is the same path.
pub assume_specification[ <PathBuf as Clone>::clone ](path: &PathBuf) -> (copy: PathBuf)
    ensures
        copy == *path,
;

/// The text that `serde_json::Error` displays: its `to_string()`. Nothing is
/// claimed about the text.
#[verifier::external_body]
fn json_error_text(err: &serde_json::Error) -> String {
    err.to_string()
}

/// An input/output failure, reduced to what the harness reports of it: the
/// kind of the failure and its message.
#[derive(Debug, PartialEq, Eq)]
pub struct IoFailure {
    pub kind: ErrorKind,
    pub message: String,
}

/// Everything that can go wrong while configuring or running the harness.
#[derive(Debug, PartialEq, Eq)]
pub enum TesterError {
    /// A required environment variable is not set.
    MissingEnvVar(String),
    /// No file exists at the path of the program under test.
    ExecutableNotFound(PathBuf),
    /// A stage ran longer than it was allowed to.
    Timeout(TimeSpan),
    /// An input/output operation failed.
    Io(IoFailure),
    /// The stage list is not valid JSON of the expected shape.
    JsonParse(String),
    /// A stage's check did not hold.
    AssertionFailed(String),
    /// A requested stage is malformed.
    InvalidTestCase(String),
    /// The program under test could not be executed.
    ProcessExecution(String),
    /// A path is not usable.
    InvalidPath(String),
    /// The harness itself is at fault.
    InternalError(String),
    /// Any other failure, described by its message.
    Custom(String),
    /// The process was asked to start while it is running.
    ProcessAlreadyRunning,
    /// An operation needs a running process and there is none.
    NoProcessRunning,
    /// The standard input of the process is not available.
    StdinCaptureFailed,
    /// The standard output of the process is not available.
    StdoutCaptureFailed,
    /// The standard error of the process is not available.
    StderrCaptureFailed,
    /// Waiting for the process failed.
    ProcessWaitFailed(String),
    /// The process could not be killed.
    ProcessKillFailed(String),
    /// The process did not exit within its timeout.
    WaitTimeout(TimeSpan),
}

impl TesterError {
    /// The failure of an assertion, with its message.
    pub fn assertion(msg: &str) -> (err: TesterError)
        ensures
            err matches TesterError::AssertionFailed(text) && text@ == msg@,
    {
        TesterError::AssertionFailed(String::from_str(msg))
    }

    /// An input/output failure of the same kind as `err`, whose message is
    /// `context`, a colon and a space, then the message of `err`.
    pub fn io_with_context(err: IoFailure, context: &str) -> (wrapped: TesterError)
        ensures
            wrapped matches TesterError::Io(failure) && failure.kind == err.kind
                && failure.message@ == context@ + ": "@ + err.message@,
    {
        let mut message = String::from_str(context);
        message.append(": ");
        message.append(err.message.as_str());
        TesterError::Io(IoFailure { kind: err.kind, message })
    }

    /// Whether the error reports that a time limit was exceeded.
    pub fn is_timeout(&self) -> (timeout: bool)
        ensures
            timeout <==> (self is Timeout || self is WaitTimeout),
    {
        match self {
            TesterError::Timeout(_) => true,
            TesterError::WaitTimeout(_) => true,
            _ => false,
        }
    }

    /// Whether the run may go on after the error. Internal errors and
    /// malformed stages are final.
    pub fn is_recoverable(&self) -> (recoverable: bool)
        ensures
            recoverable <==> !(self is InternalError || self is InvalidTestCase),
    {
        match self {
            TesterError::InternalError(_) => false,
            TesterError::InvalidTestCase(_) => false,
            _ => true,
        }
    }
}

impl From<String> for TesterError {
    /// A message on its own is a custom error.
    fn from(s: String) -> (err: TesterError) {
        TesterError::Custom(s)
    }
}

impl FromSpecImpl<String> for TesterError {
    open spec fn obeys_from_spec() -> bool {
        true
    }

    open spec fn from_spec(s: String) -> TesterError {
        TesterError::Custom(s)
    }
}

impl<'a> From<&'a str> for TesterError {
    /// A message on its own is a custom error.
    fn from(s: &'a str) -> (err: TesterError)
        ensures
            err matches TesterError::Custom(text) && text@ == s@,
    {
        TesterError::Custom(String::from_str(s))
    }
}

impl<'a> FromSpecImpl<&'a str> for TesterError {
    /// The conversion allocates its message, so its result is stated by the
    /// `ensures` of `from` and not as a value.
    open spec fn obeys_from_spec() -> bool {
        false
    }

    open spec fn from_spec(s: &'a str) -> TesterError {
        TesterError::Custom(arbitrary())
    }
}

impl From<serde_json::Error> for TesterError {
    /// A failure to decode JSON is a parse error that carries the text of
    /// the failure.
    fn from(err: serde_json::Error) -> (parse: TesterError)
        ensures
            parse is JsonParse,
    {
        TesterError::JsonParse(json_error_text(&err))
    }
}

impl FromSpecImpl<serde_json::Error> for TesterError {
    /// The message is whatever text the decoder displays, so the result is
    /// stated by the `ensures` of `from` and not as a value.
    open spec fn obeys_from_spec() -> bool {
        false
    }

    open spec fn from_spec(err: serde_json::Error) -> TesterError {
        TesterError::JsonParse(arbitrary())
    }
}

} // verus!
