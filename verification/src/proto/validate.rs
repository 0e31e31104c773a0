//! The check of a payload against the clock.

use crate::proto::error::{ProtoError, ProtoErrorView};
use crate::proto::payload::SpaPayload;
use vstd::prelude::*;

verus! {

/// The largest age of a packet in seconds, unless configured otherwise.
pub const DEFAULT_MAX_AGE_SECS: i64 = 120;

/// How far a packet may lie in the future, in seconds, for clocks that differ.
pub const DEFAULT_MAX_SKEW_SECS: i64 = 30;

/// The mark of a payload that passed the check.
#[derive(Clone, Copy, Debug)]
pub struct Validated;

/// `n`, or the nearest number that fits in 64 bits.
pub open spec fn clamp_i64(n: int) -> i64 {
    if n > i64::MAX {
        i64::MAX
    } else if n < i64::MIN {
        i64::MIN
    } else {
        n as i64
    }
}

/// What the clock says against a packet, if anything: that it lies further in the
/// future than the skew, or further in the past than the age.
pub open spec fn clock_error(timestamp: i64, now: i64, max_age: i64, max_skew: i64) -> Option<
    ProtoErrorView,
> {
    if now - timestamp < -max_skew {
        Some(ProtoErrorView::PacketInFuture(clamp_i64(timestamp - now)))
    } else if now - timestamp > max_age {
        Some(ProtoErrorView::PacketTooOld(clamp_i64(now - timestamp), max_age))
    } else {
        None
    }
}

/// `n`, or the nearest number that fits in 64 bits.
fn clamped(n: i128) -> (r: i64)
    ensures
        r == clamp_i64(n as int),
{
    if n > i64::MAX as i128 {
        i64::MAX
    } else if n < i64::MIN as i128 {
        i64::MIN
    } else {
        n as i64
    }
}

/// Checks the timestamp of a payload against the time `now_unix`.
pub fn validate_against_clock(
    payload: &SpaPayload,
    now_unix: i64,
    max_age_secs: i64,
    max_skew_secs: i64,
) -> (r: Result<Validated, ProtoError>)
    ensures
        match r {
            Ok(_) => clock_error(payload.timestamp, now_unix, max_age_secs, max_skew_secs) is None,
            Err(e) => clock_error(payload.timestamp, now_unix, max_age_secs, max_skew_secs) == Some(
                e@,
            ),
        },
{
    let delta: i128 = now_unix as i128 - payload.timestamp as i128;
    if delta < -(max_skew_secs as i128) {
        return Err(ProtoError::PacketInFuture { skew_secs: clamped(-delta) });
    }
    if delta > max_age_secs as i128 {
        return Err(
            ProtoError::PacketTooOld { age_secs: clamped(delta), max_secs: max_age_secs },
        );
    }
    Ok(Validated)
}

/// A packet is accepted exactly while the clock lies in the window from `max_skew`
/// before its timestamp to `max_age` after it.
pub proof fn law_accepted_in_window(timestamp: i64, now: i64, max_age: i64, max_skew: i64)
    ensures
        clock_error(timestamp, now, max_age, max_skew) is None <==> timestamp - max_skew <= now
            <= timestamp + max_age,
{
}

/// Once a packet has become too old it stays rejected as too old: a later clock
/// never admits it again.
pub proof fn law_too_old_stays_too_old(
    timestamp: i64,
    earlier: i64,
    later: i64,
    max_age: i64,
    max_skew: i64,
)
    requires
        earlier <= later,
        clock_error(timestamp, earlier, max_age, max_skew) matches Some(e) && e is PacketTooOld,
    ensures
        clock_error(timestamp, later, max_age, max_skew) matches Some(e) && e is PacketTooOld,
{
}

/// What a packet outside the window is told: by how many seconds it lies in the future, or
/// how old it is and how old it may be.
pub proof fn law_clock_errors_tell_the_distance(
    timestamp: i64,
    now: i64,
    max_age: i64,
    max_skew: i64,
)
    requires
        i64::MIN <= timestamp - now <= i64::MAX,
        i64::MIN <= now - timestamp <= i64::MAX,
        max_age >= 0,
        max_skew >= 0,
    ensures
        timestamp - now > max_skew ==> clock_error(timestamp, now, max_age, max_skew) == Some(
            ProtoErrorView::PacketInFuture((timestamp - now) as i64),
        ),
        now - timestamp > max_age ==> clock_error(timestamp, now, max_age, max_skew) == Some(
            ProtoErrorView::PacketTooOld((now - timestamp) as i64, max_age),
        ),
{
}

/// Only the distance between the clock and the timestamp counts.
pub proof fn law_only_the_distance_counts(
    timestamp: i64,
    now: i64,
    by: i64,
    max_age: i64,
    max_skew: i64,
)
    requires
        i64::MIN <= timestamp + by <= i64::MAX,
        i64::MIN <= now + by <= i64::MAX,
    ensures
        clock_error((timestamp + by) as i64, (now + by) as i64, max_age, max_skew) == clock_error(
            timestamp,
            now,
            max_age,
            max_skew,
        ),
{
}

/// A distance that fits in 64 bits is kept, and no distance wraps.
pub proof fn law_distances_do_not_wrap(n: int)
    ensures
        i64::MIN <= n <= i64::MAX ==> clamp_i64(n) == n,
        n > i64::MAX ==> clamp_i64(n) == i64::MAX,
        n < i64::MIN ==> clamp_i64(n) == i64::MIN,
{
}

/// What [`validate_against_clock`] gives: the packet passes exactly in the window around its
/// timestamp, and one that does not is told by how much.
pub proof fn law_checked_against_the_clock(
    payload: SpaPayload,
    now: i64,
    max_age: i64,
    max_skew: i64,
    r: Result<Validated, ProtoError>,
)
    requires
        call_ensures(validate_against_clock, (&payload, now, max_age, max_skew), r),
        i64::MIN <= payload.timestamp - now <= i64::MAX,
        i64::MIN <= now - payload.timestamp <= i64::MAX,
        max_age >= 0,
        max_skew >= 0,
    ensures
        r is Ok <==> payload.timestamp - max_skew <= now <= payload.timestamp + max_age,
        payload.timestamp - now > max_skew ==> (r matches Err(
            ProtoError::PacketInFuture { skew_secs },
        ) && skew_secs == payload.timestamp - now),
        now - payload.timestamp > max_age ==> (r matches Err(
            ProtoError::PacketTooOld { age_secs, max_secs },
        ) && age_secs == now - payload.timestamp && max_secs == max_age),
{
    law_clock_errors_tell_the_distance(payload.timestamp, now, max_age, max_skew);
}

/// The window where nothing else is configured: 30 seconds before the timestamp to two minutes
/// after it.
pub proof fn law_default_window(timestamp: i64, now: i64)
    ensures
        clock_error(timestamp, now, DEFAULT_MAX_AGE_SECS, DEFAULT_MAX_SKEW_SECS) is None
            <==> timestamp - 30 <= now <= timestamp + 120,
{
}

} // verus!
