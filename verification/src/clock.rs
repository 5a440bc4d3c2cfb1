//! Points in time, counted in nanoseconds since the Unix epoch.
use vstd::prelude::*;

verus! {

/// Nanoseconds in one second.
pub const NANOS_PER_SECOND: u128 = 1_000_000_000;

/// A point in time: whole seconds, and nanoseconds beyond them, since the Unix epoch.
#[derive(Clone, Copy, Debug, PartialEq, Eq, Structural)]
pub struct Timestamp {
    pub secs: u64,
    pub nanos: u32,
}

impl View for Timestamp {
    type V = nat;

    /// The point in time as nanoseconds since the Unix epoch.
    open spec fn view(&self) -> nat {
        (self.secs as nat) * 1_000_000_000 + self.nanos as nat
    }
}

/// The time that passed from `earlier` to `later`, in nanoseconds; zero where
/// `later` lies before `earlier`.
pub open spec fn elapsed_nanos(earlier: Timestamp, later: Timestamp) -> nat {
    if later@ >= earlier@ {
        (later@ - earlier@) as nat
    } else {
        0
    }
}

impl Timestamp {
    /// The point in time `secs` seconds after the Unix epoch.
    pub fn from_secs(secs: u64) -> (t: Timestamp)
        ensures
            t == (Timestamp { secs, nanos: 0 }),
            t@ == secs as nat * 1_000_000_000,
    {
        Timestamp { secs, nanos: 0 }
    }

    /// Nanoseconds since the Unix epoch.
    pub fn as_nanos(&self) -> (n: u128)
        ensures
            n == self@,
    {
        let secs: u128 = self.secs as u128;
        let nanos: u128 = self.nanos as u128;
        secs * NANOS_PER_SECOND + nanos
    }

    /// The time that passed since `earlier`, in nanoseconds; zero where `self`
    /// lies before `earlier`.
    pub fn nanos_since(&self, earlier: &Timestamp) -> (n: u128)
        ensures
            n == elapsed_nanos(*earlier, *self),
    {
        let later: u128 = self.as_nanos();
        let start: u128 = earlier.as_nanos();
        if later >= start {
            later - start
        } else {
            0
        }
    }

    /// Whether at least `seconds` seconds passed from `earlier` to `self`.
    pub fn at_least_seconds_after(&self, earlier: &Timestamp, seconds: u64) -> (r: bool)
        ensures
            r == (elapsed_nanos(*earlier, *self) >= seconds as nat * 1_000_000_000),
    {
        let span: u128 = seconds as u128;
        self.nanos_since(earlier) >= span * NANOS_PER_SECOND
    }
}

} // verus!
