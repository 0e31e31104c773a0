//! Spans of time and the clock.

use vstd::prelude::*;

verus! {

/// A span of time: whole seconds and a fraction in nanoseconds.
#[derive(Clone, Copy, Debug, PartialEq, Eq, Hash, Structural)]
pub struct Duration {
    /// The whole seconds.
    pub secs: u64,
    /// The nanoseconds of the fraction, less than a second.
    pub nanos: u32,
}

impl Duration {
    /// The whole span in nanoseconds.
    pub open spec fn total_nanos(self) -> nat {
        (self.secs * 1_000_000_000 + self.nanos) as nat
    }

    /// A span of whole seconds.
    pub fn from_secs(secs: u64) -> (r: Duration)
        ensures
            r == (Duration { secs, nanos: 0 }),
    {
        Duration { secs, nanos: 0 }
    }

    /// The whole seconds of the span.
    pub fn as_secs(&self) -> (r: u64)
        ensures
            r == self.secs,
    {
        self.secs
    }

    /// Whether the span is longer than another.
    pub fn exceeds(&self, other: &Duration) -> (r: bool)
        ensures
            r == (self.total_nanos() > other.total_nanos()),
    {
        self.secs as u128 * 1_000_000_000 + self.nanos as u128 > other.secs as u128 * 1_000_000_000
            + other.nanos as u128
    }

    /// The shorter of two spans.
    pub fn at_most(&self, limit: &Duration) -> (r: Duration)
        ensures
            r == shorter(*self, *limit),
    {
        if self.exceeds(limit) {
            *limit
        } else {
            *self
        }
    }
}

/// The shorter of two spans.
pub open spec fn shorter(a: Duration, limit: Duration) -> Duration {
    if a.total_nanos() > limit.total_nanos() {
        limit
    } else {
        a
    }
}

/// A number of seconds as a signed number, or the largest one where it does not fit.
pub open spec fn saturate_i64(secs: u64) -> i64 {
    if secs > i64::MAX {
        i64::MAX
    } else {
        secs as i64
    }
}

/// A number of seconds as a signed number, or the largest one where it does not fit.
pub fn saturated_i64(secs: u64) -> (r: i64)
    ensures
        r == saturate_i64(secs),
{
    if secs > i64::MAX as u64 {
        i64::MAX
    } else {
        secs as i64
    }
}

/// `std::time::SystemTime`: the whole seconds since the Unix epoch, or nothing where
/// the clock stands before it. Nothing is claimed of the number.
#[verifier::external_body]
fn seconds_since_epoch() -> (r: Option<u64>) {
    std::time::UNIX_EPOCH.elapsed().ok().map(|d| d.as_secs())
}

/// Whether the clock of the system can give a reading: the whole seconds since the
/// Unix epoch, or nothing where it stands before it.
pub closed spec fn clock_gives(reading: Option<u64>) -> bool {
    call_ensures(seconds_since_epoch, (), reading)
}

/// Reads the clock of the system.
pub(crate) fn read_clock() -> (r: Option<u64>)
    ensures
        clock_gives(r),
{
    seconds_since_epoch()
}

/// The time that a reading of the clock stands for, in seconds of Unix time.
pub open spec fn unix_time(reading: Option<u64>) -> i64 {
    match reading {
        Some(secs) => saturate_i64(secs),
        None => 0,
    }
}

/// Whether a time is what a reading of the clock of the system stands for.
pub open spec fn clock_time(now: i64) -> bool {
    exists|reading: Option<u64>| #[trigger] clock_gives(reading) && now == unix_time(reading)
}

/// The time that a reading of the clock stands for, in seconds of Unix time: 0 where
/// the clock stands before the epoch.
pub fn unix_time_of(reading: Option<u64>) -> (r: i64)
    ensures
        r == unix_time(reading),
        r >= 0,
{
    match reading {
        Some(secs) => saturated_i64(secs),
        None => 0,
    }
}

/// Of two spans the one that is kept is one of them, and neither of them is shorter:
/// seconds decide, and nanoseconds where the seconds are the same.
pub proof fn law_shorter_is_the_shorter(a: Duration, limit: Duration)
    requires
        a.nanos < 1_000_000_000,
        limit.nanos < 1_000_000_000,
    ensures
        a.secs < limit.secs || (a.secs == limit.secs && a.nanos <= limit.nanos) ==> shorter(a, limit)
            == a,
        limit.secs < a.secs || (a.secs == limit.secs && limit.nanos <= a.nanos) ==> shorter(a, limit)
            == limit,
{
}

/// A span is as long as its seconds, each a thousand million nanoseconds, and its
/// nanoseconds.
pub proof fn law_longer_by_seconds_first(a: Duration, b: Duration)
    requires
        a.nanos < 1_000_000_000,
        b.nanos < 1_000_000_000,
    ensures
        a.total_nanos() > b.total_nanos() <==> a.secs > b.secs || (a.secs == b.secs && a.nanos
            > b.nanos),
{
}

/// A number of seconds that fits is kept as it is, and a larger one never wraps: it
/// becomes the largest number.
pub proof fn law_saturation_keeps_what_fits(secs: u64)
    ensures
        secs <= 0x7fff_ffff_ffff_ffff ==> saturate_i64(secs) as int == secs as int,
        secs > 0x7fff_ffff_ffff_ffff ==> saturate_i64(secs) as int == 0x7fff_ffff_ffff_ffff,
{
}

/// The clock's seconds are the time, and a clock before the epoch stands for its start.
pub proof fn law_time_is_what_the_clock_reads(secs: u64)
    ensures
        secs <= 0x7fff_ffff_ffff_ffff ==> unix_time(Some(secs)) as int == secs as int,
        unix_time(Some(secs)) >= 0,
        unix_time(None) == 0,
{
}

/// What [`Duration::exceeds`] and [`Duration::at_most`] give, by seconds and nanoseconds.
pub proof fn law_spans_are_compared(a: Duration, b: Duration, longer: bool, kept: Duration)
    requires
        call_ensures(Duration::exceeds, (&a, &b), longer),
        call_ensures(Duration::at_most, (&a, &b), kept),
        a.nanos < 1_000_000_000,
        b.nanos < 1_000_000_000,
    ensures
        longer <==> a.secs > b.secs || (a.secs == b.secs && a.nanos > b.nanos),
        kept == (if longer {
            b
        } else {
            a
        }),
{
}

} // verus!
