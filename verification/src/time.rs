//! Spans of time and readings of the monotonic clock, counted in nanoseconds.
use vstd::prelude::*;

verus! {

pub const NANOS_PER_SEC: u128 = 1_000_000_000;

pub const NANOS_PER_MILLI: u128 = 1_000_000;

/// The longest span: `u64::MAX` seconds and 999 999 999 nanoseconds.
pub const DURATION_MAX_NANOS: u128 = 18_446_744_073_709_551_615_999_999_999;

/// The earliest instant: `i64::MIN` seconds from the clock's zero, as far back as a
/// kernel `timespec` reaches.
pub const INSTANT_MIN_NANOS: i128 = -9_223_372_036_854_775_808_000_000_000;

/// The latest instant: `i64::MAX` seconds and 999 999 999 nanoseconds after the
/// clock's zero, which is as far as a kernel `timespec` reaches.
pub const INSTANT_MAX_NANOS: i128 = 9_223_372_036_854_775_807_999_999_999;

/// A span of time with nanosecond resolution. Its view is its length in
/// nanoseconds.
#[derive(Debug, Clone, Copy, PartialEq, Eq, PartialOrd, Ord, Hash, Structural)]
pub struct Duration {
    nanos: u128,
}

/// A reading of the monotonic clock. Its view is the number of nanoseconds since
/// the clock's zero, negative for an instant before it.
#[derive(Debug, Clone, Copy, PartialEq, Eq, PartialOrd, Ord, Hash, Structural)]
pub struct Instant {
    nanos: i128,
}

impl View for Duration {
    type V = nat;

    closed spec fn view(&self) -> nat {
        self.nanos as nat
    }
}

impl View for Instant {
    type V = int;

    closed spec fn view(&self) -> int {
        self.nanos as int
    }
}

/// Nanoseconds from the clock's zero to `t`; none if `t` lies before it.
pub open spec fn since_zero(t: int) -> nat {
    if t < 0 {
        0
    } else {
        t as nat
    }
}

impl Default for Duration {
    /// The empty span.
    fn default() -> (span: Duration)
        ensures
            span@ == 0,
    {
        Duration { nanos: 0 }
    }
}

impl Duration {
    /// Every span fits `u64` seconds and a fraction.
    #[verifier::type_invariant]
    pub open spec fn in_range(self) -> bool {
        self@ <= DURATION_MAX_NANOS
    }

    /// A span of `secs` seconds and `nanos` nanoseconds.
    pub fn new(secs: u64, nanos: u32) -> (span: Duration)
        requires
            secs * NANOS_PER_SEC + nanos <= DURATION_MAX_NANOS,
        ensures
            span@ == secs * NANOS_PER_SEC + nanos,
    {
        Duration { nanos: secs as u128 * NANOS_PER_SEC + nanos as u128 }
    }

    /// A span of `secs` seconds.
    pub fn from_secs(secs: u64) -> (span: Duration)
        ensures
            span@ == secs * NANOS_PER_SEC,
    {
        Duration { nanos: secs as u128 * NANOS_PER_SEC }
    }

    /// A span of `millis` milliseconds.
    pub fn from_millis(millis: u64) -> (span: Duration)
        ensures
            span@ == millis * NANOS_PER_MILLI,
    {
        Duration { nanos: millis as u128 * NANOS_PER_MILLI }
    }

    /// A span of `nanos` nanoseconds.
    pub fn from_nanos(nanos: u64) -> (span: Duration)
        ensures
            span@ == nanos,
    {
        Duration { nanos: nanos as u128 }
    }

    /// The whole length in nanoseconds.
    pub fn as_nanos(&self) -> (nanos: u128)
        ensures
            nanos == self@,
            nanos <= DURATION_MAX_NANOS,
    {
        proof {
            use_type_invariant(self);
        }
        self.nanos
    }

    /// The whole seconds of the span.
    pub fn as_secs(&self) -> (secs: u64)
        ensures
            secs == self@ / NANOS_PER_SEC as nat,
    {
        proof {
            use_type_invariant(self);
        }
        (self.nanos / NANOS_PER_SEC) as u64
    }

    /// What is left of the span above its whole seconds.
    pub fn subsec_nanos(&self) -> (nanos: u32)
        ensures
            nanos == self@ % NANOS_PER_SEC as nat,
            nanos < NANOS_PER_SEC,
    {
        (self.nanos % NANOS_PER_SEC) as u32
    }
}

impl Instant {
    /// Every instant lies between the earliest and the latest one.
    #[verifier::type_invariant]
    pub open spec fn in_range(self) -> bool {
        INSTANT_MIN_NANOS <= self@ <= INSTANT_MAX_NANOS
    }

    /// The instant that lies `span` after the clock's zero, if there is one.
    pub fn after_zero(span: Duration) -> (instant: Option<Instant>)
        ensures
            instant is Some <==> span@ <= INSTANT_MAX_NANOS,
            instant matches Some(t) ==> t@ == span@,
    {
        proof {
            use_type_invariant(&span);
        }
        if span.nanos as i128 <= INSTANT_MAX_NANOS {
            Some(Instant { nanos: span.nanos as i128 })
        } else {
            None
        }
    }

    /// The instant that lies `span` before the clock's zero, if there is one.
    pub fn before_zero(span: Duration) -> (instant: Option<Instant>)
        ensures
            instant is Some <==> -span@ >= INSTANT_MIN_NANOS,
            instant matches Some(t) ==> t@ == -span@,
    {
        proof {
            use_type_invariant(&span);
        }
        if -(span.nanos as i128) >= INSTANT_MIN_NANOS {
            Some(Instant { nanos: -(span.nanos as i128) })
        } else {
            None
        }
    }

    /// Nanoseconds since the clock's zero.
    pub fn as_nanos(&self) -> (nanos: i128)
        ensures
            nanos == self@,
            INSTANT_MIN_NANOS <= nanos <= INSTANT_MAX_NANOS,
    {
        proof {
            use_type_invariant(self);
        }
        self.nanos
    }

    /// Whether this instant comes strictly before `other`.
    pub fn is_before(&self, other: Instant) -> (before: bool)
        ensures
            before == (self@ < other@),
    {
        self.nanos < other.nanos
    }

    /// The instant `span` later, if there is one.
    pub fn checked_add(&self, span: Duration) -> (later: Option<Instant>)
        ensures
            later is Some <==> self@ + span@ <= INSTANT_MAX_NANOS,
            later matches Some(t) ==> t@ == self@ + span@,
    {
        proof {
            use_type_invariant(self);
            use_type_invariant(&span);
        }
        let nanos: i128 = self.nanos + span.nanos as i128;
        if nanos <= INSTANT_MAX_NANOS {
            Some(Instant { nanos })
        } else {
            None
        }
    }

    /// The instant `span` earlier, if there is one.
    pub fn checked_sub(&self, span: Duration) -> (earlier: Option<Instant>)
        ensures
            earlier is Some <==> self@ - span@ >= INSTANT_MIN_NANOS,
            earlier matches Some(t) ==> t@ == self@ - span@,
    {
        proof {
            use_type_invariant(self);
            use_type_invariant(&span);
        }
        let nanos: i128 = self.nanos - span.nanos as i128;
        if nanos >= INSTANT_MIN_NANOS {
            Some(Instant { nanos })
        } else {
            None
        }
    }

    /// The span from `earlier` to this instant; empty if `earlier` is later.
    pub fn duration_since(&self, earlier: Instant) -> (span: Duration)
        ensures
            span@ == if earlier@ <= self@ {
                (self@ - earlier@) as nat
            } else {
                0
            },
    {
        proof {
            use_type_invariant(self);
            use_type_invariant(&earlier);
        }
        if earlier.nanos <= self.nanos {
            Duration { nanos: (self.nanos - earlier.nanos) as u128 }
        } else {
            Duration { nanos: 0 }
        }
    }
}

/// The span from the clock's zero to `t`; empty if `t` lies before it.
pub fn instant_to_duration(t: Instant) -> (span: Duration)
    ensures
        span@ == since_zero(t@),
{
    t.duration_since(Instant { nanos: 0 })
}

/// An instant is as many nanoseconds after the clock's zero as its number says, and one
/// before it none: of all counts that reach it, this is the smallest.
pub proof fn law_since_zero(t: int, n: nat)
    ensures
        0 <= t ==> since_zero(t) == t,
        t <= since_zero(t),
        t <= n ==> since_zero(t) <= n,
{
}

/// Spans are as long, and instants reach as far, as their seconds and nanoseconds can
/// count.
pub proof fn law_ranges_of_time()
    ensures
        NANOS_PER_SEC == 1_000 * NANOS_PER_MILLI,
        NANOS_PER_MILLI == 1_000_000,
        DURATION_MAX_NANOS + 1 == (u64::MAX + 1) * NANOS_PER_SEC,
        INSTANT_MAX_NANOS + 1 == (i64::MAX + 1) * NANOS_PER_SEC,
        INSTANT_MIN_NANOS == i64::MIN * NANOS_PER_SEC,
{
}

} // verus!
