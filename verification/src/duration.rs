//! Durations as whole nanoseconds, the unit in which `std::time::Duration`
//! is exact, with the saturating arithmetic that `Duration` performs.

use vstd::prelude::*;

verus! {

/// Nanoseconds in a millisecond.
pub const NANOS_PER_MILLI: u128 = 1_000_000;

/// Nanoseconds in a second.
pub const NANOS_PER_SEC: u128 = 1_000_000_000;

/// The longest `Duration` (`Duration::MAX`), in nanoseconds.
pub const MAX_DURATION: u128 = 18_446_744_073_709_551_615_999_999_999;

/// `Duration::saturating_mul`: the product, or the longest duration when
/// the product is longer.
pub open spec fn saturating_mul(d: u128, factor: u32) -> u128 {
    if d * factor > MAX_DURATION {
        MAX_DURATION
    } else {
        (d * factor) as u128
    }
}

/// `Duration::saturating_add`: the sum, or the longest duration when the
/// sum is longer.
pub open spec fn saturating_add(a: u128, b: u128) -> u128 {
    if a + b > MAX_DURATION {
        MAX_DURATION
    } else {
        (a + b) as u128
    }
}

/// Computes `Duration::saturating_mul`.
pub fn duration_saturating_mul(d: u128, factor: u32) -> (r: u128)
    ensures
        r == saturating_mul(d, factor),
{
    match d.checked_mul(factor as u128) {
        Some(p) => if p > MAX_DURATION {
            MAX_DURATION
        } else {
            p
        },
        None => MAX_DURATION,
    }
}

/// Computes `Duration::saturating_add`.
pub fn duration_saturating_add(a: u128, b: u128) -> (r: u128)
    ensures
        r == saturating_add(a, b),
{
    match a.checked_add(b) {
        Some(s) => if s > MAX_DURATION {
            MAX_DURATION
        } else {
            s
        },
        None => MAX_DURATION,
    }
}

/// The whole seconds of a duration, as `Duration` holds them (`u64`); a
/// count beyond the longest duration reads as its seconds.
pub open spec fn whole_secs(d: u128) -> u64 {
    if d / NANOS_PER_SEC > u64::MAX {
        u64::MAX
    } else {
        (d / NANOS_PER_SEC) as u64
    }
}

/// What `Debug` writes for `Duration::new(secs, nanos)`.
pub uninterp spec fn duration_debug(secs: u64, nanos: u32) -> Seq<char>;

/// Writes `std::time::Duration::new(secs, nanos)` with `Debug` (for example
/// `250ms` or `1.5s`). The contract names the text; its form is not stated.
#[verifier::external_body]
fn duration_debug_text(secs: u64, nanos: u32) -> (text: String)
    requires
        nanos < 1_000_000_000,
    ensures
        text@ == duration_debug(secs, nanos),
{
    format!("{:?}", std::time::Duration::new(secs, nanos))
}

/// The `Debug` text of a duration.
pub open spec fn duration_text(d: u128) -> Seq<char> {
    duration_debug(whole_secs(d), (d % NANOS_PER_SEC) as u32)
}

/// Writes the `Debug` text of a duration.
pub fn duration_string(d: u128) -> (text: String)
    ensures
        text@ == duration_text(d),
{
    let q = d / NANOS_PER_SEC;
    let secs: u64 = if q > u64::MAX as u128 {
        u64::MAX
    } else {
        q as u64
    };
    let nanos: u32 = (d % NANOS_PER_SEC) as u32;
    duration_debug_text(secs, nanos)
}

/// `Duration::as_millis`: the whole milliseconds of a duration.
pub open spec fn as_millis(d: u128) -> u128 {
    d / NANOS_PER_MILLI
}

} // verus!
