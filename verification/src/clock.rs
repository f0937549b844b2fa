//! Time values as plain numbers.
//!
//! `Duration` holds what a `std::time::Duration` holds, `Timestamp` what a
//! `chrono::DateTime<Utc>` holds (whole seconds since the Unix epoch plus a
//! sub-second nanosecond count, within chrono's supported range) and
//! `TimeDelta` what a `chrono::TimeDelta` holds. Each one is viewed as a
//! whole number of nanoseconds, which is what every rule about sessions is
//! stated in.
use vstd::prelude::*;

verus! {

pub const NANOS_PER_SEC: u32 = 1_000_000_000;

/// Earliest second a `DateTime<Utc>` can hold: -262143-01-01T00:00:00Z.
pub const MIN_TIMESTAMP_SECS: i64 = -8_334_601_228_800;

/// Latest second a `DateTime<Utc>` can hold: +262142-12-31T23:59:59Z.
pub const MAX_TIMESTAMP_SECS: i64 = 8_210_266_876_799;

/// Whole seconds of the largest `TimeDelta` (`i64::MAX` milliseconds).
pub const MAX_DELTA_SECS: i64 = 9_223_372_036_854_775;

/// Sub-second part of the largest `TimeDelta`, in nanoseconds.
pub const MAX_DELTA_SUBSEC_NANOS: u32 = 807_000_000;

pub open spec fn nanos_per_sec() -> int {
    1_000_000_000
}

/// Earliest representable instant, in nanoseconds since the epoch.
pub open spec fn min_instant() -> int {
    MIN_TIMESTAMP_SECS * nanos_per_sec()
}

/// Latest representable instant, in nanoseconds since the epoch.
pub open spec fn max_instant() -> int {
    MAX_TIMESTAMP_SECS * nanos_per_sec() + (nanos_per_sec() - 1)
}

/// Largest `TimeDelta` in nanoseconds; the smallest is its negation.
pub open spec fn max_delta() -> int {
    MAX_DELTA_SECS * nanos_per_sec() + MAX_DELTA_SUBSEC_NANOS
}

/// An unsigned span of time, as `std::time::Duration` holds it.
#[derive(Clone, Copy, Debug, PartialEq, Eq)]
pub struct Duration {
    secs: u64,
    nanos: u32,
}

impl Duration {
    #[verifier::type_invariant]
    spec fn well_formed(self) -> bool {
        self.nanos < NANOS_PER_SEC
    }

    /// `Duration::ZERO`.
    pub fn zero() -> (d: Duration)
        ensures
            d@ == 0,
    {
        Duration { secs: 0, nanos: 0 }
    }

    /// `Duration::MAX`.
    pub fn max_value() -> (d: Duration)
        ensures
            d@ == u64::MAX * nanos_per_sec() + (nanos_per_sec() - 1),
    {
        Duration { secs: u64::MAX, nanos: NANOS_PER_SEC - 1 }
    }

    pub fn from_secs(secs: u64) -> (d: Duration)
        ensures
            d@ == secs * nanos_per_sec(),
    {
        Duration { secs, nanos: 0 }
    }

    /// `Duration::new`: the nanoseconds beyond one second carry into the
    /// seconds. `std::time::Duration::new` panics where that carry overflows, so the carry
    /// must fit.
    pub fn new(secs: u64, nanos: u32) -> (d: Duration)
        requires
            secs + nanos / NANOS_PER_SEC <= u64::MAX,
        ensures
            d@ == secs * nanos_per_sec() + nanos,
    {
        let carry: u64 = (nanos / NANOS_PER_SEC) as u64;
        Duration { secs: secs + carry, nanos: nanos % NANOS_PER_SEC }
    }

    pub fn as_secs(&self) -> (s: u64)
        ensures
            s == self@ / nanos_per_sec(),
    {
        proof {
            use_type_invariant(self);
        }
        self.secs
    }

    /// `self < other`.
    pub fn lt(&self, other: &Duration) -> (b: bool)
        ensures
            b == (self@ < other@),
    {
        proof {
            use_type_invariant(self);
            use_type_invariant(other);
        }
        self.secs < other.secs || (self.secs == other.secs && self.nanos < other.nanos)
    }

    pub fn subsec_nanos(&self) -> (n: u32)
        ensures
            n == self@ % nanos_per_sec(),
    {
        proof {
            use_type_invariant(self);
        }
        self.nanos
    }

}

impl View for Duration {
    type V = int;

    closed spec fn view(&self) -> int {
        self.secs * nanos_per_sec() + self.nanos
    }
}

/// A signed span of time in `chrono::TimeDelta`'s range, `-max_delta()`
/// to `max_delta()` nanoseconds.
#[derive(Clone, Copy, Debug, PartialEq, Eq)]
pub struct TimeDelta {
    secs: i64,
    nanos: u32,
}

impl TimeDelta {
    #[verifier::type_invariant]
    spec fn well_formed(self) -> bool {
        &&& self.nanos < NANOS_PER_SEC
        &&& -max_delta() <= self.secs * nanos_per_sec() + self.nanos <= max_delta()
    }

    /// `TimeDelta::seconds` for a count that fits; chrono panics beyond it.
    pub fn seconds(secs: i64) -> (d: TimeDelta)
        requires
            -MAX_DELTA_SECS <= secs <= MAX_DELTA_SECS,
        ensures
            d@ == secs * nanos_per_sec(),
    {
        TimeDelta { secs, nanos: 0 }
    }

    /// `TimeDelta::from_std`: a `Duration` converts exactly when it is no
    /// longer than the largest `TimeDelta`.
    pub fn from_std(duration: Duration) -> (r: Option<TimeDelta>)
        ensures
            r is Some <==> duration@ <= max_delta(),
            r matches Some(d) ==> d@ == duration@,
    {
        proof {
            use_type_invariant(duration);
        }
        let secs = duration.as_secs();
        let nanos = duration.subsec_nanos();
        if secs > MAX_DELTA_SECS as u64 {
            return None;
        }
        if secs == MAX_DELTA_SECS as u64 && nanos > MAX_DELTA_SUBSEC_NANOS {
            return None;
        }
        Some(TimeDelta { secs: secs as i64, nanos })
    }

    /// `self < other`, as chrono orders deltas.
    pub fn lt(&self, other: &TimeDelta) -> (b: bool)
        ensures
            b == (self@ < other@),
    {
        proof {
            use_type_invariant(self);
            use_type_invariant(other);
        }
        self.secs < other.secs || (self.secs == other.secs && self.nanos < other.nanos)
    }

}

impl View for TimeDelta {
    type V = int;

    closed spec fn view(&self) -> int {
        self.secs * nanos_per_sec() + self.nanos
    }
}

/// An instant in UTC, within the range `chrono::DateTime<Utc>` supports.
#[derive(Clone, Copy, Debug, PartialEq, Eq)]
pub struct Timestamp {
    secs: i64,
    nanos: u32,
}

impl Timestamp {
    #[verifier::type_invariant]
    spec fn well_formed(self) -> bool {
        &&& self.nanos < NANOS_PER_SEC
        &&& MIN_TIMESTAMP_SECS <= self.secs <= MAX_TIMESTAMP_SECS
    }

    /// `DateTime::from_timestamp`, for instants without a leap second:
    /// `None` when the seconds fall outside the supported range or the
    /// nanoseconds are a whole second or more.
    pub fn from_timestamp(secs: i64, nanos: u32) -> (r: Option<Timestamp>)
        ensures
            r is Some <==> (MIN_TIMESTAMP_SECS <= secs <= MAX_TIMESTAMP_SECS && nanos
                < NANOS_PER_SEC),
            r matches Some(t) ==> t@ == secs * nanos_per_sec() + nanos,
    {
        if secs < MIN_TIMESTAMP_SECS || secs > MAX_TIMESTAMP_SECS || nanos >= NANOS_PER_SEC {
            None
        } else {
            Some(Timestamp { secs, nanos })
        }
    }

    /// Whole seconds since the epoch, rounded towards the past.
    pub fn timestamp(&self) -> (s: i64)
        ensures
            s == self@ / nanos_per_sec(),
    {
        proof {
            use_type_invariant(self);
        }
        self.secs
    }

    /// Nanoseconds past `timestamp()`.
    pub fn timestamp_subsec_nanos(&self) -> (n: u32)
        ensures
            n == self@ % nanos_per_sec(),
    {
        proof {
            use_type_invariant(self);
        }
        self.nanos
    }

    /// `DateTime::checked_add_signed`: `None` exactly when the sum leaves
    /// the supported range.
    pub fn checked_add_signed(&self, delta: TimeDelta) -> (r: Option<Timestamp>)
        ensures
            r is Some <==> min_instant() <= self@ + delta@ <= max_instant(),
            r matches Some(t) ==> t@ == self@ + delta@,
    {
        proof {
            use_type_invariant(self);
            use_type_invariant(delta);
        }
        let mut secs: i64 = self.secs + delta.secs;
        let mut nanos: u32 = self.nanos + delta.nanos;
        if nanos >= NANOS_PER_SEC {
            nanos = nanos - NANOS_PER_SEC;
            secs = secs + 1;
        }
        if secs < MIN_TIMESTAMP_SECS || secs > MAX_TIMESTAMP_SECS {
            None
        } else {
            Some(Timestamp { secs, nanos })
        }
    }

    /// `self - earlier` as a `TimeDelta`; every difference of two instants
    /// fits in one.
    pub fn signed_duration_since(&self, earlier: &Timestamp) -> (d: TimeDelta)
        ensures
            d@ == self@ - earlier@,
    {
        proof {
            use_type_invariant(self);
            use_type_invariant(earlier);
        }
        let mut secs: i64 = self.secs - earlier.secs;
        let nanos: u32;
        if self.nanos >= earlier.nanos {
            nanos = self.nanos - earlier.nanos;
        } else {
            nanos = self.nanos + NANOS_PER_SEC - earlier.nanos;
            secs = secs - 1;
        }
        TimeDelta { secs, nanos }
    }

    /// `self >= other`, as chrono orders instants.
    pub fn ge(&self, other: &Timestamp) -> (b: bool)
        ensures
            b == (self@ >= other@),
    {
        proof {
            use_type_invariant(self);
            use_type_invariant(other);
        }
        self.secs > other.secs || (self.secs == other.secs && self.nanos >= other.nanos)
    }

}

impl View for Timestamp {
    type V = int;

    closed spec fn view(&self) -> int {
        self.secs * nanos_per_sec() + self.nanos
    }
}

} // verus!
