//! One entry of the stage catalog.

use vstd::prelude::*;

use crate::time::TimeSpan;

verus! {

/// Seconds that a stage may run when its case sets no timeout.
pub const DEFAULT_CASE_TIMEOUT_SECS: u64 = 10;

/// A stage of the catalog: the slug that names it, the function that
/// verifies it and the time that the function may take.
///
/// `F` is the type of the verification function. The harness keeps the
/// function for its driver and never calls it.
pub struct Case<F> {
    /// The name of the stage. A requested stage is matched by it.
    pub slug: String,
    /// The function that verifies the stage.
    pub function: F,
    /// The time that the function may take; zero stands for the default.
    pub timeout: TimeSpan,
}

/// The timeout that a case with `timeout` set is run with, in nanoseconds.
pub open spec fn effective_timeout(timeout: TimeSpan) -> nat {
    if timeout@ == 0 {
        DEFAULT_CASE_TIMEOUT_SECS as nat * 1_000_000_000
    } else {
        timeout@
    }
}

impl<F> Case<F> {
    /// A case for the stage named `slug`, with a timeout of ten seconds.
    pub fn new(slug: &str, function: F) -> (case: Case<F>)
        ensures
            case.slug@ == slug@,
            case.function == function,
            case.timeout@ == DEFAULT_CASE_TIMEOUT_SECS as nat * 1_000_000_000,
    {
        Case {
            slug: String::from_str(slug),
            function,
            timeout: TimeSpan::from_secs(DEFAULT_CASE_TIMEOUT_SECS),
        }
    }

    /// The time that the stage may take: its timeout, or ten seconds where
    /// the timeout is zero.
    pub fn default_timeout(&self) -> (timeout: TimeSpan)
        ensures
            timeout@ == effective_timeout(self.timeout),
            self.timeout@ != 0 ==> timeout == self.timeout,
    {
        if self.timeout.is_zero() {
            TimeSpan::from_secs(DEFAULT_CASE_TIMEOUT_SECS)
        } else {
            self.timeout
        }
    }
}

} // verus!
