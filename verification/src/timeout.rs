//! The time that one request may take.

use vstd::prelude::*;

verus! {

/// The nanoseconds of one millisecond.
pub const NANOS_PER_MILLI: u32 = 1_000_000;

/// The milliseconds of one second.
pub const MILLIS_PER_SEC: u64 = 1_000;

/// A span of time: whole seconds, and the nanoseconds of the second begun.
#[derive(Debug, Clone, Copy, PartialEq, Eq, Structural)]
pub struct Timeout {
    secs: u64,
    nanos: u32,
}

impl Timeout {
    #[verifier::type_invariant]
    spec fn in_range(&self) -> bool {
        self.nanos < 1_000_000_000
    }

    /// The whole seconds of the span.
    pub closed spec fn secs(&self) -> nat {
        self.secs as nat
    }

    /// The nanoseconds beyond the whole seconds.
    pub closed spec fn nanos(&self) -> nat {
        self.nanos as nat
    }

    /// The whole milliseconds of the span.
    pub open spec fn millis(&self) -> nat {
        self.secs() * 1000 + self.nanos() / 1_000_000
    }

    /// The span of `millis` milliseconds.
    pub fn from_millis(millis: u64) -> (timeout: Timeout)
        ensures
            timeout.secs() == millis / 1000,
            timeout.nanos() == (millis % 1000) * 1_000_000,
            timeout.millis() == millis,
    {
        let secs: u64 = millis / MILLIS_PER_SEC;
        let rest: u64 = millis % MILLIS_PER_SEC;
        let nanos: u32 = (rest as u32) * NANOS_PER_MILLI;
        Timeout { secs, nanos }
    }

    /// The whole seconds of the span.
    pub fn as_secs(&self) -> (secs: u64)
        ensures
            secs == self.secs(),
    {
        self.secs
    }

    /// The nanoseconds beyond the whole seconds: fewer than a second's worth.
    pub fn subsec_nanos(&self) -> (nanos: u32)
        ensures
            nanos == self.nanos(),
            nanos < 1_000_000_000,
    {
        proof {
            use_type_invariant(self);
        }
        self.nanos
    }

    /// The whole milliseconds of the span.
    pub fn as_millis(&self) -> (millis: u128)
        ensures
            millis == self.millis(),
    {
        proof {
            use_type_invariant(self);
        }
        (self.secs as u128) * 1000 + (self.nanos / NANOS_PER_MILLI) as u128
    }
}

} // verus!
