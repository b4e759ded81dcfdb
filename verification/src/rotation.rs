//! Key-rotation schedule: a time-bucket width that shrinks with the age of a
//! record, and the reduction of "now" to an epoch index.

use vstd::prelude::*;

verus! {

/// Seconds in one schedule year.
pub const YEAR_SECONDS: u64 = 365 * 24 * 3600;

/// Width in seconds of the rotation bucket for a record created at
/// `created_at`, seen at `now`: 33 seconds at birth, 3 seconds fewer per whole
/// elapsed year, never below 3.  A `now` before `created_at` counts as age 0.
pub open spec fn interval_spec(created_at: u64, now: u64) -> u64 {
    let years = if now >= created_at {
        (now - created_at) / (YEAR_SECONDS as int)
    } else {
        0
    };
    if 33 - 3 * years < 3 {
        3u64
    } else {
        (33 - 3 * years) as u64
    }
}

/// The epoch index that `now` falls into for a bucket of width `interval`.
/// A zero width is treated as 1, so the index is always defined.
pub open spec fn epoch_spec(now: u64, interval: u64) -> u64 {
    if interval == 0 {
        now
    } else {
        now / interval
    }
}

/// Rotation interval: base 33 seconds, minus 3 seconds per elapsed year,
/// clamped to a floor of 3 seconds.
pub fn rotation_interval_seconds(created_at: u64, now: u64) -> (r: u64)
    ensures
        r == interval_spec(created_at, now),
        3 <= r <= 33,
{
    let elapsed = if now >= created_at {
        now - created_at
    } else {
        0
    };
    let years = elapsed / YEAR_SECONDS;
    if years >= 11 {
        3
    } else {
        let raw = 33 - 3 * years;
        if raw < 3 {
            3
        } else {
            raw
        }
    }
}

/// Reduce `now` to its epoch index, guarding a zero-width interval as width 1.
pub fn epoch_of(now: u64, interval: u64) -> (r: u64)
    ensures
        r == epoch_spec(now, interval),
{
    if interval == 0 {
        now
    } else {
        now / interval
    }
}

/// The rotation interval never falls below its three-second floor, whatever
/// the creation time and the current time.
pub proof fn lemma_rotation_floor(created_at: u64, now: u64)
    ensures
        interval_spec(created_at, now) >= 3,
{
}

} // verus!
