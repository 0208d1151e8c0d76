//! The timer period. An `Interval` is a strictly positive duration, split
//! into whole seconds and a sub-second nanosecond part; the same value serves
//! as the timer's initial delay and as its repeat period.

use vstd::prelude::*;

verus! {

pub const NANOS_PER_SEC: u32 = 1_000_000_000;
pub const NANOS_PER_MILLI: u32 = 1_000_000;
pub const MILLIS_PER_SEC: u64 = 1_000;

/// A strictly positive duration: the timer's initial delay and repeat period.
#[derive(Clone, Copy, Debug, PartialEq, Eq, Structural)]
pub struct Interval {
    secs: u64,
    nanos: u32,
}

/// The four fields the OS timer is armed with. The initial-delay pair
/// (`value_*`) always equals the period pair (`interval_*`): this design has
/// no distinct first-fire delay.
#[derive(Clone, Copy, Debug, PartialEq, Eq, Structural)]
pub struct ArmRequest {
    pub value_secs: i64,
    pub value_nanos: i64,
    pub interval_secs: i64,
    pub interval_nanos: i64,
}

impl Interval {
    /// Whole seconds of the interval.
    pub closed spec fn secs(self) -> u64 {
        self.secs
    }

    /// Sub-second nanoseconds of the interval.
    pub closed spec fn nanos(self) -> u32 {
        self.nanos
    }

    /// A well-formed interval is normalized, strictly positive, and its
    /// second count fits the OS arming field (a signed 64-bit integer).
    pub open spec fn wf(self) -> bool {
        self.nanos() < NANOS_PER_SEC
            && (self.secs() > 0 || self.nanos() > 0)
            && self.secs() <= i64::MAX as u64
    }

    /// The whole interval in nanoseconds.
    pub open spec fn total_nanos(self) -> int {
        self.secs() * (NANOS_PER_SEC as int) + self.nanos()
    }

    /// Builds the interval from seconds and nanoseconds; `None` when the
    /// pair is zero, not normalized, or too large to arm a timer with.
    pub fn from_parts(secs: u64, nanos: u32) -> (r: Option<Interval>)
        ensures
            (nanos < NANOS_PER_SEC && (secs > 0 || nanos > 0) && secs <= i64::MAX as u64)
                <==> (r matches Some(iv) && iv.secs() == secs && iv.nanos() == nanos),
            !(nanos < NANOS_PER_SEC && (secs > 0 || nanos > 0) && secs <= i64::MAX as u64)
                ==> r is None,
            r matches Some(iv) ==> iv.wf(),
    {
        if nanos < NANOS_PER_SEC && (secs > 0 || nanos > 0) && secs <= i64::MAX as u64 {
            Some(Interval { secs, nanos })
        } else {
            None
        }
    }

    /// Builds the interval from a count of milliseconds; `None` when zero.
    pub fn from_millis(ms: u64) -> (r: Option<Interval>)
        ensures
            ms > 0 ==> (r matches Some(iv) && iv.wf() && iv.secs() == ms / MILLIS_PER_SEC
                && iv.nanos() == (ms % MILLIS_PER_SEC) * NANOS_PER_MILLI),
            ms == 0 ==> r is None,
    {
        if ms == 0 {
            return None;
        }
        let secs: u64 = ms / MILLIS_PER_SEC;
        let rem: u64 = ms % MILLIS_PER_SEC;
        let nanos: u32 = (rem as u32) * NANOS_PER_MILLI;
        Some(Interval { secs, nanos })
    }

    /// Seconds part, as a plain value.
    pub fn secs_part(&self) -> (r: u64)
        ensures
            r == self.secs(),
    {
        self.secs
    }

    /// Nanoseconds part, as a plain value.
    pub fn nanos_part(&self) -> (r: u32)
        ensures
            r == self.nanos(),
    {
        self.nanos
    }

    /// The whole interval in nanoseconds; `None` when it does not fit `u64`.
    pub fn as_total_nanos(&self) -> (r: Option<u64>)
        requires
            self.wf(),
        ensures
            self.total_nanos() <= u64::MAX ==> r == Some(self.total_nanos() as u64),
            self.total_nanos() > u64::MAX ==> r is None,
    {
        match self.secs.checked_mul(NANOS_PER_SEC as u64) {
            Some(base) => base.checked_add(self.nanos as u64),
            None => None,
        }
    }

    /// The fields the OS timer is armed with: initial delay and repeat
    /// period both equal to this interval.
    pub fn arm_request(&self) -> (r: ArmRequest)
        requires
            self.wf(),
        ensures
            r.value_secs == self.secs() as i64,
            r.value_nanos == self.nanos() as i64,
            r.interval_secs == r.value_secs,
            r.interval_nanos == r.value_nanos,
    {
        let vs: i64 = self.secs as i64;
        let vn: i64 = self.nanos as i64;
        ArmRequest { value_secs: vs, value_nanos: vn, interval_secs: vs, interval_nanos: vn }
    }
}

} // verus!
