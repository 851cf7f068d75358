//! Points in time and spans of time as plain nanosecond counts.

use vstd::prelude::*;

verus! {

/// Nanoseconds in one second.
pub const NANOS_PER_SEC: u128 = 1_000_000_000;

/// The longest span a [`Duration`] holds, in nanoseconds: every pair of a
/// `u64` of seconds and a `u32` of nanoseconds fits.
pub const MAX_DURATION_NANOS: u128 = 18_446_744_073_709_551_615 * 1_000_000_000 + 4_294_967_295;

/// A span of time in whole nanoseconds, at most [`MAX_DURATION_NANOS`].
#[derive(Clone, Copy, Debug, PartialEq, Eq, Structural)]
pub struct Duration {
    nanos: u128,
}

impl Duration {
    #[verifier::type_invariant]
    spec fn in_range(self) -> bool {
        self.nanos <= MAX_DURATION_NANOS
    }

    /// The span in nanoseconds.
    pub closed spec fn nanos(self) -> nat {
        self.nanos as nat
    }

    /// A span of `secs` seconds and `nanos` nanoseconds.
    pub fn new(secs: u64, nanos: u32) -> (d: Duration)
        ensures
            d.nanos() == secs as nat * 1_000_000_000 + nanos as nat,
    {
        Duration { nanos: secs as u128 * NANOS_PER_SEC + nanos as u128 }
    }

    /// A span of whole seconds.
    pub fn from_secs(secs: u64) -> (d: Duration)
        ensures
            d.nanos() == secs as nat * 1_000_000_000,
    {
        Duration { nanos: secs as u128 * NANOS_PER_SEC }
    }

    /// A span of whole milliseconds.
    pub fn from_millis(millis: u64) -> (d: Duration)
        ensures
            d.nanos() == millis as nat * 1_000_000,
    {
        Duration { nanos: millis as u128 * 1_000_000 }
    }

    /// A span of whole nanoseconds.
    pub fn from_nanos(nanos: u64) -> (d: Duration)
        ensures
            d.nanos() == nanos as nat,
    {
        Duration { nanos: nanos as u128 }
    }

    /// The span in nanoseconds.
    pub fn as_nanos(&self) -> (n: u128)
        ensures
            n == self.nanos(),
            n <= MAX_DURATION_NANOS,
    {
        proof {
            use_type_invariant(self);
        }
        self.nanos
    }
}

/// A point in time: nanoseconds since an origin that the caller fixes once
/// and uses for every instant it hands in.
#[derive(Clone, Copy, Debug, PartialEq, Eq, Structural)]
pub struct Instant {
    nanos: u128,
}

impl Instant {
    /// Nanoseconds since the origin.
    pub closed spec fn nanos(self) -> nat {
        self.nanos as nat
    }

    /// The instant `nanos` nanoseconds after the origin.
    pub fn from_nanos(nanos: u128) -> (t: Instant)
        ensures
            t.nanos() == nanos,
    {
        Instant { nanos }
    }

    /// Nanoseconds since the origin.
    pub fn as_nanos(&self) -> (n: u128)
        ensures
            n == self.nanos(),
    {
        self.nanos
    }
}

} // verus!
