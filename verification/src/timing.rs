//! Elapsed time as a plain count of nanoseconds.

use vstd::prelude::*;

verus! {

/// Nanoseconds in one second.
pub const NANOS_PER_SEC: u128 = 1_000_000_000;

/// A span of time measured on a monotonic clock, held as whole nanoseconds.
#[derive(Clone, Copy, Debug, PartialEq, Eq, Structural)]
pub struct Elapsed {
    pub nanos: u128,
}

impl Elapsed {
    /// The span in nanoseconds, as a mathematical integer.
    pub open spec fn total_nanos(self) -> nat {
        self.nanos as nat
    }

    /// The number of whole seconds in the span.
    pub open spec fn spec_whole_secs(self) -> u128 {
        self.nanos / 1_000_000_000
    }

    /// A span of `secs` seconds and `subsec_nanos` further nanoseconds.
    pub fn new(secs: u64, subsec_nanos: u32) -> (e: Elapsed)
        ensures
            e.total_nanos() == secs as nat * 1_000_000_000 + subsec_nanos as nat,
    {
        let whole: u128 = secs as u128 * NANOS_PER_SEC;
        Elapsed { nanos: whole + subsec_nanos as u128 }
    }

    /// A span of exactly `nanos` nanoseconds.
    pub fn from_nanos(nanos: u128) -> (e: Elapsed)
        ensures
            e.nanos == nanos,
    {
        Elapsed { nanos }
    }

    /// The number of whole seconds in the span, the fraction dropped.
    #[verifier::when_used_as_spec(spec_whole_secs)]
    pub fn whole_secs(self) -> (s: u128)
        ensures
            s == self.spec_whole_secs(),
            s == self.total_nanos() / 1_000_000_000,
    {
        self.nanos / NANOS_PER_SEC
    }

    /// Whether this span is strictly longer than `limit`.
    pub fn exceeds(self, limit: Elapsed) -> (b: bool)
        ensures
            b == (self.total_nanos() > limit.total_nanos()),
    {
        self.nanos > limit.nanos
    }
}

} // verus!
