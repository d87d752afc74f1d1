//! A harness for running ordered verification stages against one program
//! under test.
//!
//! The crate is the decision core of the harness: every rule about process
//! lifecycle, stage ordering, cleanup and verdicts is a verified function
//! from plain values to plain values. Whoever embeds it performs the actual
//! operating-system work (spawning, polling, sleeping, logging) and reports
//! what happened.
//!
//! - [`executable`]: the life of the one process under test.
//! - [`harness`]: what a stage works with, and its teardown stack.
//! - [`runner`]: the run of the stages, one after the other, up to the
//!   first that does not pass.
//! - [`tester`]: a configured run against a catalog of stages.
//! - [`context`], [`definition`], [`case`]: the configuration of a run and
//!   the catalog.
//! - [`error`], [`time`], [`text`]: errors, spans of time, numerals.

pub mod case;
pub mod context;
pub mod definition;
pub mod error;
pub mod executable;
pub mod harness;
pub mod runner;
pub mod tester;
pub mod text;
pub mod time;

pub use case::Case;
pub use context::{Context, ContextCase, Required};
pub use definition::Definition;
pub use error::{IoFailure, TesterError};
pub use executable::{
    Captured, Executable, ExitStatus, FileProbe, Launch, LaunchOutcome, Output, Poll, Probe,
    Stream, WaitStep, WriteOutcome,
};
pub use harness::Harness;
pub use runner::{Level, LogLine, RunAction, RunEvent, RunState, Runner, StageOutcome, Step};
pub use tester::Tester;
pub use time::TimeSpan;
