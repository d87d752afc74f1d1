//! Spans of time with nanosecond resolution.

use vstd::prelude::*;

verus! {

/// Nanoseconds in one second.
pub const NANOS_PER_SEC: u32 = 1_000_000_000;

/// Nanoseconds in one millisecond.
pub const NANOS_PER_MILLI: u32 = 1_000_000;

/// Milliseconds in one second.
pub const MILLIS_PER_SEC: u64 = 1_000;

/// A non-negative span of time, held as whole seconds plus a sub-second
/// remainder in nanoseconds.
///
/// Its view is the span's length in nanoseconds.
#[derive(Clone, Copy, Debug, PartialEq, Eq)]
pub struct TimeSpan {
    secs: u64,
    nanos: u32,
}

impl View for TimeSpan {
    type V = nat;

    closed spec fn view(&self) -> nat {
        (self.secs as nat) * (NANOS_PER_SEC as nat) + (self.nanos as nat)
    }
}

impl TimeSpan {
    #[verifier::type_invariant]
    spec fn normalized(self) -> bool {
        self.nanos < NANOS_PER_SEC
    }

    /// A span of `secs` whole seconds.
    pub fn from_secs(secs: u64) -> (span: TimeSpan)
        ensures
            span@ == secs as nat * 1_000_000_000,
    {
        TimeSpan { secs, nanos: 0 }
    }

    /// A span of `millis` milliseconds.
    pub fn from_millis(millis: u64) -> (span: TimeSpan)
        ensures
            span@ == millis as nat * 1_000_000,
    {
        let secs: u64 = millis / MILLIS_PER_SEC;
        let rest: u32 = (millis % MILLIS_PER_SEC) as u32;
        TimeSpan { secs, nanos: rest * NANOS_PER_MILLI }
    }

    /// The span of `secs` seconds and `subsec_nanos` nanoseconds, or `None`
    /// when `subsec_nanos` is a full second or more.
    pub fn new(secs: u64, subsec_nanos: u32) -> (span: Option<TimeSpan>)
        ensures
            subsec_nanos < NANOS_PER_SEC <==> span is Some,
            span matches Some(s) ==> s@ == secs as nat * 1_000_000_000 + subsec_nanos as nat,
    {
        if subsec_nanos < NANOS_PER_SEC {
            Some(TimeSpan { secs, nanos: subsec_nanos })
        } else {
            None
        }
    }

    /// The whole seconds in the span.
    pub fn as_secs(&self) -> (secs: u64)
        ensures
            secs as nat == self@ / 1_000_000_000,
    {
        proof {
            use_type_invariant(self);
        }
        self.secs
    }

    /// What is left of the span, in nanoseconds, after its whole seconds.
    pub fn subsec_nanos(&self) -> (nanos: u32)
        ensures
            nanos as nat == self@ % 1_000_000_000,
    {
        proof {
            use_type_invariant(self);
        }
        self.nanos
    }

    /// Whether the span has no length.
    pub fn is_zero(&self) -> (zero: bool)
        ensures
            zero <==> self@ == 0,
    {
        self.secs == 0 && self.nanos == 0
    }

    /// Whether the span is strictly longer than `limit`.
    pub fn exceeds(&self, limit: &TimeSpan) -> (longer: bool)
        ensures
            longer <==> self@ > limit@,
    {
        proof {
            use_type_invariant(self);
            use_type_invariant(limit);
        }
        self.secs > limit.secs || (self.secs == limit.secs && self.nanos > limit.nanos)
    }
}

} // verus!
