//! Elapsed time with nanosecond resolution.

use vstd::prelude::*;

verus! {

/// Nanoseconds in one second.
pub const NANOS_PER_SEC: u32 = 1_000_000_000;

/// Nanoseconds in one millisecond.
pub const NANOS_PER_MILLI: u32 = 1_000_000;

/// Milliseconds in one second.
pub const MILLIS_PER_SEC: u64 = 1_000;

/// The longest span a [`Duration`] can hold, in nanoseconds.
pub open spec fn max_nanos() -> nat {
    (u64::MAX as nat) * (NANOS_PER_SEC as nat) + (NANOS_PER_SEC as nat - 1) as nat
}

/// A non-negative span of time: whole seconds and the nanoseconds beyond them.
///
/// Its view is the span in nanoseconds.
#[derive(Clone, Copy, Debug, PartialEq, Eq, PartialOrd, Ord)]
pub struct Duration {
    secs: u64,
    nanos: u32,
}

impl View for Duration {
    type V = nat;

    closed spec fn view(&self) -> nat {
        (self.secs as nat) * (NANOS_PER_SEC as nat) + (self.nanos as nat)
    }
}

impl Duration {
    /// The sub-second part stays below one second.
    #[verifier::type_invariant]
    pub closed spec fn wf(self) -> bool {
        self.nanos < NANOS_PER_SEC
    }

    /// A span of `secs` seconds and `nanos` nanoseconds. Whole seconds in
    /// `nanos` carry over into the seconds.
    pub fn new(secs: u64, nanos: u32) -> (d: Duration)
        requires
            secs + nanos / NANOS_PER_SEC <= u64::MAX,
        ensures
            d.wf(),
            d@ == secs * NANOS_PER_SEC + nanos,
    {
        let carry: u32 = nanos / NANOS_PER_SEC;
        Duration { secs: secs + carry as u64, nanos: nanos % NANOS_PER_SEC }
    }

    /// The empty span.
    pub fn zero() -> (d: Duration)
        ensures
            d.wf(),
            d@ == 0,
    {
        Duration { secs: 0, nanos: 0 }
    }

    /// A span of `millis` milliseconds.
    pub fn from_millis(millis: u64) -> (d: Duration)
        ensures
            d.wf(),
            d@ == millis * NANOS_PER_MILLI,
    {
        let sub: u64 = millis % MILLIS_PER_SEC;
        Duration { secs: millis / MILLIS_PER_SEC, nanos: sub as u32 * NANOS_PER_MILLI }
    }

    /// A span of `nanos` nanoseconds.
    pub fn from_nanos(nanos: u128) -> (d: Duration)
        requires
            nanos <= max_nanos(),
        ensures
            d.wf(),
            d@ == nanos,
    {
        let secs: u128 = nanos / 1_000_000_000;
        let sub: u128 = nanos % 1_000_000_000;
        Duration { secs: secs as u64, nanos: sub as u32 }
    }

    /// The whole seconds of the span.
    pub fn as_secs(&self) -> (secs: u64)
        ensures
            secs == self@ / (NANOS_PER_SEC as nat),
    {
        proof {
            use_type_invariant(self);
        }
        self.secs
    }

    /// The part of the span beyond its whole seconds, in nanoseconds.
    pub fn subsec_nanos(&self) -> (nanos: u32)
        ensures
            nanos == self@ % (NANOS_PER_SEC as nat),
    {
        proof {
            use_type_invariant(self);
        }
        self.nanos
    }

    /// The part of the span beyond its whole seconds, in whole milliseconds.
    pub fn subsec_millis(&self) -> (millis: u32)
        ensures
            millis == (self@ % (NANOS_PER_SEC as nat)) / (NANOS_PER_MILLI as nat),
            millis < MILLIS_PER_SEC,
    {
        proof {
            use_type_invariant(self);
        }
        self.nanos / NANOS_PER_MILLI
    }

    /// The whole span in nanoseconds.
    pub fn as_nanos(&self) -> (nanos: u128)
        ensures
            nanos == self@,
            nanos <= max_nanos(),
    {
        proof {
            use_type_invariant(self);
        }
        self.secs as u128 * 1_000_000_000 + self.nanos as u128
    }

    /// The span by which `self` exceeds `earlier`, or the empty span if it
    /// does not.
    pub fn saturating_sub(self, earlier: Duration) -> (d: Duration)
        ensures
            d.wf(),
            d@ == if self@ >= earlier@ { self@ - earlier@ } else { 0 },
    {
        let a: u128 = self.as_nanos();
        let b: u128 = earlier.as_nanos();
        if a >= b {
            Duration::from_nanos(a - b)
        } else {
            Duration::zero()
        }
    }

    /// Two well-formed spans of the same length are the same value.
    pub proof fn lemma_view_injective(a: Duration, b: Duration)
        requires
            a.wf(),
            b.wf(),
            a@ == b@,
        ensures
            a == b,
    {
    }

    /// A well-formed span is at most [`max_nanos`] long.
    pub proof fn lemma_view_bounded(d: Duration)
        requires
            d.wf(),
        ensures
            d@ <= max_nanos(),
    {
    }
}

} // verus!
