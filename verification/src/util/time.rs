//! Spans of time and the system clock.

use std::time::SystemTime;
use std::time::SystemTimeError;
use vstd::prelude::*;
use crate::error::Error;
use crate::util::text::{decimal, decimal_string};

verus! {

pub const NANOS_PER_SEC: u32 = 1_000_000_000;

pub const NANOS_PER_MILLI: u32 = 1_000_000;

/// A span of time: whole seconds and the rest in nanoseconds.
///
/// The nanosecond part is always below one second, so a span has one representation
/// and the derived ordering is the ordering by length.
#[derive(Clone, Copy, Debug, PartialEq, Eq, PartialOrd, Ord, Hash)]
pub struct Duration {
    secs: u64,
    nanos: u32,
}

impl Duration {
    #[verifier::type_invariant]
    spec fn well_formed(self) -> bool {
        self.nanos < NANOS_PER_SEC
    }

    /// The whole seconds of the span.
    pub closed spec fn secs(self) -> nat {
        self.secs as nat
    }

    /// The part of the span below one second, in nanoseconds.
    pub closed spec fn subsec(self) -> nat {
        self.nanos as nat
    }

    /// The length of the span in nanoseconds.
    pub open spec fn total_nanos(self) -> nat {
        self.secs() * 1_000_000_000 + self.subsec()
    }

    /// The length of the span in whole milliseconds, rounded down.
    pub open spec fn millis(self) -> nat {
        self.secs() * 1000 + self.subsec() / 1_000_000
    }

    /// The span of `secs` seconds and `nanos` nanoseconds, if `nanos` is below one second.
    pub fn new(secs: u64, nanos: u32) -> (r: Option<Duration>)
        ensures
            nanos < 1_000_000_000 <==> r is Some,
            r matches Some(d) ==> d.secs() == secs && d.subsec() == nanos,
    {
        if nanos < NANOS_PER_SEC {
            Some(Duration { secs, nanos })
        } else {
            None
        }
    }

    /// The empty span.
    pub fn zero() -> (r: Duration)
        ensures
            r.secs() == 0,
            r.subsec() == 0,
    {
        Duration { secs: 0, nanos: 0 }
    }

    /// The span of `secs` seconds.
    pub fn from_secs(secs: u64) -> (r: Duration)
        ensures
            r.secs() == secs,
            r.subsec() == 0,
    {
        Duration { secs, nanos: 0 }
    }

    /// The span of `millis` milliseconds.
    pub fn from_millis(millis: u64) -> (r: Duration)
        ensures
            r.secs() == millis / 1000,
            r.subsec() == (millis % 1000) * 1_000_000,
            r.millis() == millis,
    {
        let rest: u32 = (millis % 1000) as u32;
        let r = Duration { secs: millis / 1000, nanos: rest * NANOS_PER_MILLI };
        r
    }

    /// The whole seconds of the span.
    pub fn as_secs(&self) -> (r: u64)
        ensures
            r == self.secs(),
    {
        self.secs
    }

    /// The part of the span below one second, in nanoseconds.
    pub fn subsec_nanos(&self) -> (r: u32)
        ensures
            r == self.subsec(),
            r < 1_000_000_000,
    {
        proof {
            use_type_invariant(self);
        }
        self.nanos
    }

    /// The length of the span in whole milliseconds, rounded down.
    pub fn as_millis(&self) -> (r: u128)
        ensures
            r == self.millis(),
    {
        let whole: u128 = self.secs as u128;
        let part: u128 = (self.nanos / NANOS_PER_MILLI) as u128;
        whole * 1000 + part
    }

    /// Whether the span is empty.
    pub fn is_zero(&self) -> (r: bool)
        ensures
            r == (self.total_nanos() == 0),
    {
        self.secs == 0 && self.nanos == 0
    }

    /// `self` and `secs` seconds more; the seconds stop at `u64::MAX`.
    pub fn saturating_add_secs(&self, secs: u64) -> (r: Duration)
        ensures
            r.subsec() == self.subsec(),
            self.secs() + secs <= u64::MAX ==> r.secs() == self.secs() + secs,
            self.secs() + secs > u64::MAX ==> r.secs() == u64::MAX,
    {
        proof {
            use_type_invariant(self);
        }
        match self.secs.checked_add(secs) {
            Some(total) => Duration { secs: total, nanos: self.nanos },
            None => Duration { secs: 0xffff_ffff_ffff_ffff, nanos: self.nanos },
        }
    }

    /// The span from `earlier` to `self`, or zero where `earlier` is the longer one.
    pub fn saturating_sub(&self, earlier: &Duration) -> (r: Duration)
        ensures
            self.total_nanos() >= earlier.total_nanos() ==> r.total_nanos() == self.total_nanos()
                - earlier.total_nanos(),
            self.total_nanos() < earlier.total_nanos() ==> r.total_nanos() == 0,
    {
        proof {
            use_type_invariant(self);
            use_type_invariant(earlier);
        }
        if self.secs < earlier.secs || (self.secs == earlier.secs && self.nanos < earlier.nanos) {
            Duration { secs: 0, nanos: 0 }
        } else if self.nanos >= earlier.nanos {
            Duration { secs: self.secs - earlier.secs, nanos: self.nanos - earlier.nanos }
        } else {
            Duration {
                secs: self.secs - earlier.secs - 1,
                nanos: self.nanos + NANOS_PER_SEC - earlier.nanos,
            }
        }
    }
}

/// A point in time on the system clock.
#[verifier::external_type_specification]
#[verifier::external_body]
pub struct ExSystemTime(SystemTime);

/// What `SystemTime::duration_since` fails with.
#[verifier::external_type_specification]
#[verifier::external_body]
pub struct ExSystemTimeError(SystemTimeError);

/// `SystemTime::now` reads the system clock; nothing is known of the point it returns.
pub assume_specification[ SystemTime::now ]() -> (now: SystemTime);

/// `SystemTime::duration_since` gives the span from `earlier` to `t`, or fails where
/// `earlier` is the later one; nothing is known here of either point.
pub assume_specification[ SystemTime::duration_since ](t: &SystemTime, earlier: SystemTime) -> (r:
    Result<std::time::Duration, SystemTimeError>);

/// `Duration::as_secs` gives the whole seconds of a span of std.
pub assume_specification[ std::time::Duration::as_secs ](d: &std::time::Duration) -> (secs: u64);

/// `Duration::subsec_nanos` gives the part of a span of std below one second, in
/// nanoseconds: always less than one second.
pub assume_specification[ std::time::Duration::subsec_nanos ](d: &std::time::Duration) -> (nanos:
    u32)
    ensures
        nanos < 1_000_000_000,
;

/// `SystemTimeError::duration` gives the span by which the earlier point of a failed
/// `duration_since` lies after the other.
pub assume_specification[ SystemTimeError::duration ](e: &SystemTimeError) -> (d:
    std::time::Duration);

/// The start of 1970 in UTC, `std::time::UNIX_EPOCH`.
#[verifier::external_body]
fn unix_epoch() -> SystemTime {
    std::time::UNIX_EPOCH
}

/// A reading of the system clock, against the start of 1970.
#[derive(Clone, Copy, Debug)]
pub enum ClockReading {
    /// The clock stands this long after the start of 1970, or at it.
    Since(Duration),
    /// The clock stands this long before the start of 1970.
    Before(Duration),
}

/// The span of `secs` seconds and `nanos` nanoseconds, as std holds it: the nanoseconds
/// of a span of std are always less than one second. Were they more, only the seconds
/// would be kept.
fn from_std(secs: u64, nanos: u32) -> (r: Duration)
    ensures
        r.secs() == secs,
        r.subsec() == if nanos < 1_000_000_000 {
            nanos
        } else {
            0
        },
{
    match Duration::new(secs, nanos) {
        Some(r) => r,
        None => Duration::from_secs(secs),
    }
}

/// Reads the system clock: how far it stands from the start of 1970, and on which
/// side.
pub fn read_clock() -> (r: ClockReading) {
    let now = SystemTime::now();
    match now.duration_since(unix_epoch()) {
        Ok(d) => ClockReading::Since(from_std(d.as_secs(), d.subsec_nanos())),
        Err(e) => {
            let gap = e.duration();
            ClockReading::Before(from_std(gap.as_secs(), gap.subsec_nanos()))
        },
    }
}

/// The time stamp for a reading of the clock: its milliseconds since 1970 in decimal.
/// A clock that stands before 1970 has none.
pub open spec fn timestamp_of(reading: ClockReading) -> Option<Seq<char>> {
    match reading {
        ClockReading::Since(d) => Some(decimal(d.millis())),
        ClockReading::Before(_) => None,
    }
}

/// The message of the error for a clock that stands before 1970.
pub open spec fn clock_error_message() -> Seq<char> {
    "system clock is before unix epoch"@
}

/// Whether `r` is the time stamp of `reading`, or the transport-class error where it
/// has none.
pub open spec fn is_timestamp_of(reading: ClockReading, r: Result<String, Error>) -> bool {
    match timestamp_of(reading) {
        Some(t) => r matches Ok(s) && s@ == t,
        None => r matches Err(Error::Transport { message }) && message@ == clock_error_message(),
    }
}

/// Formats a reading of the clock as the time stamp of a request.
pub fn timestamp_millis(reading: ClockReading) -> (r: Result<String, Error>)
    ensures
        is_timestamp_of(reading, r),
{
    match reading {
        ClockReading::Since(d) => Ok(decimal_string(d.as_millis())),
        ClockReading::Before(_) => Err(
            Error::Transport { message: "system clock is before unix epoch".to_owned() },
        ),
    }
}

/// The current time in milliseconds since the start of 1970, in decimal.
///
/// The clock decides what comes back: the result is the time stamp of some reading.
pub fn unix_timestamp_millis() -> (r: Result<String, Error>)
    ensures
        exists|reading: ClockReading| #[trigger] is_timestamp_of(reading, r),
{
    let reading = read_clock();
    timestamp_millis(reading)
}

} // verus!
