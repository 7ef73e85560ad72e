//! Calendar days of Japan Standard Time, on timestamps in milliseconds.
//!
//! Japan Standard Time is nine hours ahead of UTC all year round, so the
//! start of a day is plain arithmetic on the timestamp.

use vstd::prelude::*;
use crate::models::{Millis, Timestamp};

verus! {

pub const SECOND: Millis = 1_000;

pub const MINUTE: Millis = 60_000;

pub const HOUR: Millis = 3_600_000;

pub const DAY: Millis = 86_400_000;

/// How far Japan Standard Time is ahead of UTC.
pub const UTC_OFFSET: Millis = 32_400_000;

/// A timestamp with a day of room on either side, so that the days next to
/// it can be named.
pub open spec fn has_day_margin(t: Timestamp) -> bool {
    i64::MIN + DAY <= t <= i64::MAX - DAY
}

/// The midnight, in Japan Standard Time, that starts the day of `t`.
pub open spec fn spec_midnight(t: int) -> int {
    t - (t + UTC_OFFSET) % (DAY as int)
}

/// The midnight that ends the day of `t`.
pub open spec fn spec_next_midnight(t: int) -> int {
    spec_midnight(t) + DAY
}

/// An event that starts at `start` and lasts `duration` is overnight with
/// respect to `midnight` when the midnight falls strictly inside it.
pub open spec fn spec_is_overnight(start: int, duration: int, midnight: int) -> bool {
    start < midnight && start + duration > midnight
}

pub fn has_margin(t: Timestamp) -> (r: bool)
    ensures
        r == has_day_margin(t),
{
    i64::MIN + DAY <= t && t <= i64::MAX - DAY
}

pub fn midnight(t: Timestamp) -> (m: Timestamp)
    requires
        has_day_margin(t),
    ensures
        m == spec_midnight(t as int),
{
    let local: i64 = t + UTC_OFFSET;
    let into_day: i64 = match local.checked_rem_euclid(DAY) {
        Some(r) => r,
        None => 0,
    };
    t - into_day
}

pub fn next_midnight(t: Timestamp) -> (m: Timestamp)
    requires
        has_day_margin(t),
    ensures
        m == spec_next_midnight(t as int),
{
    midnight(t) + DAY
}

/// A day's midnight is not after any moment of the day, and the next one is
/// after all of them; at midnight the local time of day is zero.
pub proof fn lemma_midnight_bounds(t: int)
    ensures
        spec_midnight(t) <= t < spec_next_midnight(t),
        (spec_midnight(t) + UTC_OFFSET) % (DAY as int) == 0,
        spec_midnight(spec_midnight(t)) == spec_midnight(t),
{
    let d = DAY as int;
    let x = t + UTC_OFFSET;
    assert(0 <= x % d < d);
    assert((x - x % d) % d == 0) by {
        vstd::arithmetic::div_mod::lemma_fundamental_div_mod(x, d);
        vstd::arithmetic::div_mod::lemma_mod_multiples_basic(x / d, d);
        assert(x - x % d == d * (x / d));
        assert(d * (x / d) == (x / d) * d) by (nonlinear_arith);
    }
}

/// Moments of one day share their midnight.
pub proof fn lemma_midnight_of_same_day(t: int, u: int)
    requires
        spec_midnight(t) <= u < spec_next_midnight(t),
    ensures
        spec_midnight(u) == spec_midnight(t),
{
    let d = DAY as int;
    let m = spec_midnight(t);
    lemma_midnight_bounds(t);
    let y = u + UTC_OFFSET;
    let base = m + UTC_OFFSET;
    assert(base % d == 0);
    assert(0 <= y - base < d);
    vstd::arithmetic::div_mod::lemma_fundamental_div_mod(base, d);
    let q = base / d;
    assert(base == d * q);
    assert(y == q * d + (y - base)) by (nonlinear_arith)
        requires
            base == d * q,
    ;
    vstd::arithmetic::div_mod::lemma_fundamental_div_mod_converse(y, d, q, y - base);
}

} // verus!
