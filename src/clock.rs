//! Wall-clock and monotonic time, taken from chrono and std.

use core::time::Duration;
use std::time::Instant;
use vstd::prelude::*;

verus! {

#[verifier::external_type_specification]
#[verifier::external_body]
pub struct ExInstant(Instant);

/// The whole milliseconds in a duration, as `Duration::as_millis` counts them.
pub uninterp spec fn whole_millis(d: Duration) -> u128;

/// Relies on `Duration::as_millis`: the whole milliseconds in `d`.
#[verifier::external_body]
pub(crate) fn millis_of(d: &Duration) -> (r: u128)
    ensures
        r == whole_millis(*d),
{
    d.as_millis()
}

/// Relies on chrono's `Utc::now` and `DateTime::timestamp_millis`: the current
/// UTC time as milliseconds since the Unix epoch. Nothing is known of the value.
#[verifier::external_body]
pub(crate) fn utc_now_millis() -> (r: i64) {
    chrono::Utc::now().timestamp_millis()
}

/// Relies on `Instant::now`: a reading of the monotonic clock.
#[verifier::external_body]
pub(crate) fn instant_now() -> (r: Instant) {
    Instant::now()
}

/// Relies on `Instant::elapsed`: the time since `i` was read.
#[verifier::external_body]
pub(crate) fn elapsed_since(i: &Instant) -> (r: Duration) {
    i.elapsed()
}

/// A millisecond count that fits in `u64`, saturating at the largest value.
pub open spec fn clamp_millis(m: u128) -> u64 {
    if m > u64::MAX as u128 {
        u64::MAX
    } else {
        m as u64
    }
}

/// `ms` as a `u64`, saturating.
pub fn saturate_millis(ms: u128) -> (r: u64)
    ensures
        r == clamp_millis(ms),
{
    if ms > u64::MAX as u128 {
        u64::MAX
    } else {
        ms as u64
    }
}

/// The whole milliseconds in `d`, saturating at `u64::MAX`.
pub fn duration_millis(d: &Duration) -> (r: u64)
    ensures
        r == clamp_millis(whole_millis(*d)),
{
    saturate_millis(millis_of(d))
}

/// The instant `elapsed_ms` milliseconds after `launched_at`, saturating at
/// the largest representable instant.
pub open spec fn later_by(launched_at: i64, elapsed_ms: u64) -> i64 {
    if launched_at + elapsed_ms > i64::MAX {
        i64::MAX
    } else {
        (launched_at + elapsed_ms) as i64
    }
}

/// The completion time of a probe launched at `launched_at` (milliseconds
/// since the Unix epoch) that took `elapsed_ms` on the monotonic clock.
pub fn completion_time(launched_at: i64, elapsed_ms: u64) -> (r: i64)
    ensures
        r == later_by(launched_at, elapsed_ms),
        r >= launched_at,
{
    let sum: i128 = launched_at as i128 + elapsed_ms as i128;
    if sum > i64::MAX as i128 {
        i64::MAX
    } else {
        sum as i64
    }
}

} // verus!
