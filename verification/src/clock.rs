//! The wall clock and calendar text, as the library reads them from chrono.

use vstd::prelude::*;

verus! {

/// Milliseconds since the Unix epoch, read from the system clock
/// (`chrono::Utc::now().timestamp_millis()`). Nothing is stated of the value:
/// it is whatever the clock says at the call. (chrono's `Utc::now` panics when
/// the system clock reads before 1970, a state of the machine, not an input.)
#[verifier::external_body]
pub(crate) fn now_millis() -> (ms: i64) {
    chrono::Utc::now().timestamp_millis()
}

/// The RFC 3339 text of the UTC instant `secs` seconds after the Unix epoch,
/// or `None` where chrono cannot represent that instant.
pub uninterp spec fn rfc3339_of_unix_seconds(secs: i64) -> Option<Seq<char>>;

/// `chrono::DateTime::<Utc>::from_timestamp(secs, 0)` rendered with
/// `to_rfc3339`. The contract claims only that the result is a function of
/// `secs` alone (it is: UTC, no locale), named `rfc3339_of_unix_seconds`.
#[verifier::external_body]
pub(crate) fn unix_seconds_to_rfc3339(secs: i64) -> (r: Option<String>)
    ensures
        match r {
            Some(s) => rfc3339_of_unix_seconds(secs) == Some(s@),
            None => rfc3339_of_unix_seconds(secs) is None,
        },
{
    chrono::DateTime::<chrono::Utc>::from_timestamp(secs, 0).map(|d| d.to_rfc3339())
}

/// The RFC 3339 text of the current instant (`chrono::Utc::now().to_rfc3339()`).
/// Nothing is stated of the text: it depends on the clock.
#[verifier::external_body]
pub(crate) fn now_rfc3339() -> (s: String) {
    chrono::Utc::now().to_rfc3339()
}

/// The monotonic clock's instants (`std::time::Instant`), carried through
/// unopened.
#[verifier::external_type_specification]
#[verifier::external_body]
pub struct ExInstant(std::time::Instant);

/// `std::time::Instant::now`: the current instant of the monotonic clock.
/// Nothing is stated of it: it is whatever the clock says at the call.
#[verifier::external_body]
pub(crate) fn instant_now() -> (i: std::time::Instant) {
    std::time::Instant::now()
}

/// `std::time::Instant::elapsed`: the time passed since `origin` on the
/// monotonic clock. Nothing is stated of it: it depends on when the call is
/// made.
#[verifier::external_body]
pub(crate) fn instant_elapsed(origin: &std::time::Instant) -> (d: std::time::Duration) {
    origin.elapsed()
}

/// `std::time::Duration::as_nanos`: the whole nanoseconds in `d`. Nothing
/// is stated of the number: a `Duration` is opaque to the library's
/// specifications, so its value cannot be named.
#[verifier::external_body]
pub(crate) fn duration_nanos(d: &std::time::Duration) -> (ns: u128) {
    d.as_nanos()
}

} // verus!

verus! {

/// `a` divided by the positive `b`, rounded toward zero (Rust's `/`).
pub open spec fn div_toward_zero(a: int, b: int) -> int
    recommends
        b > 0,
{
    if a >= 0 { a / b } else { -((-a) / b) }
}

/// The seconds and nanoseconds that chrono is asked for when a time given in
/// milliseconds since the Unix epoch is read: the milliseconds divided by 1000
/// (toward zero), and the remainder scaled to nanoseconds, taken as a `u32`
/// (so a negative remainder wraps to a value chrono refuses).
pub open spec fn timestamp_parts_of(ms: i64) -> (i64, u32) {
    let secs = div_toward_zero(ms as int, 1000);
    (secs as i64, ((ms - secs * 1000) * 1_000_000) as u32)
}

/// The seconds and nanoseconds for a time in milliseconds since the Unix
/// epoch: see [`timestamp_parts_of`].
pub fn timestamp_parts(ms: i64) -> (r: (i64, u32))
    ensures
        r == timestamp_parts_of(ms),
{
    let secs: i64 = if ms >= 0 {
        ms / 1000
    } else {
        let magnitude: i128 = -(ms as i128);
        let q: i128 = magnitude / 1000;
        -(q as i64)
    };
    let rem: i64 = ms - secs * 1000;
    let nanos: u32 = #[verifier::truncate] ((rem * 1_000_000) as u32);
    (secs, nanos)
}

} // verus!
