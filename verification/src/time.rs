//! Points in time, kept as `std::time::SystemTime` and converted by
//! `time_util`.

use std::fmt::Write;

use vstd::prelude::*;

verus! {

/// `std::time::SystemTime`: a point in time. Time stamps are carried
/// in it as they are.
#[verifier::external_type_specification]
#[verifier::external_body]
pub struct ExSystemTime(std::time::SystemTime);

/// `SystemTime::clone` gives the same point in time: the type is
/// `Copy`.
pub assume_specification[ <std::time::SystemTime as Clone>::clone ](
    time: &std::time::SystemTime,
) -> (copy: std::time::SystemTime)
    ensures
        copy == *time,
;

/// The last millisecond of the year 262142, counted from 1970-01-01:
/// the last that `chrono` can hold. Time stamps beyond it are not
/// accepted.
pub const MAX_TIMESTAMP_MILLIS: u64 = 8_210_266_876_799_999;

/// The point in time that a count of milliseconds since 1970-01-01 on
/// a New York clock stands for.
pub uninterp spec fn new_york_time(millis: u64) -> Option<std::time::SystemTime>;

/// Calls `time_util::system_time_from_millis_in_new_york` on the
/// number `millis`, handed over as a `serde_json::Value`. The function
/// goes through `chrono`, which panics on a year beyond 262142, so
/// `millis` is kept within that year. The result is taken to be a
/// function of `millis` alone; nothing is claimed about when it is
/// `Some`.
#[verifier::external_body]
pub(crate) fn system_time_from_millis_in_new_york(millis: u64) -> (time: Option<
    std::time::SystemTime,
>)
    requires
        millis <= MAX_TIMESTAMP_MILLIS,
    ensures
        time == new_york_time(millis),
{
    time_util::system_time_from_millis_in_new_york(serde_json::Value::from(millis)).ok()
}

/// `std::time::SystemTimeError`: what `SystemTime::duration_since`
/// fails with.
#[verifier::external_type_specification]
#[verifier::external_body]
pub struct ExSystemTimeError(std::time::SystemTimeError);

/// The time that has passed between 1970-01-01T00:00:00Z and `time`;
/// where `time` lies before that instant, the error of the standard
/// library that holds how long before.
pub uninterp spec fn unix_duration(time: std::time::SystemTime) -> Result<
    std::time::Duration,
    std::time::SystemTimeError,
>;

/// The whole seconds of a duration.
pub uninterp spec fn duration_secs(duration: std::time::Duration) -> u64;

/// The nanoseconds of a duration beyond its whole seconds.
pub uninterp spec fn duration_subsec_nanos(duration: std::time::Duration) -> u32;

/// The instant `secs` seconds and `nanos` nanoseconds after
/// 1970-01-01T00:00:00Z, written in UTC after the `strftime` pattern
/// `pattern`; `None` where `chrono` has no such instant or does not
/// take the pattern.
pub uninterp spec fn utc_formatted(secs: i64, nanos: u32, pattern: Seq<char>) -> Option<Seq<char>>;

/// Calls `SystemTime::duration_since` with `UNIX_EPOCH`, which fails
/// for a time before the epoch. The result is taken to be a function
/// of `time` alone.
#[verifier::external_body]
pub(crate) fn since_epoch(time: &std::time::SystemTime) -> (r: Result<
    std::time::Duration,
    std::time::SystemTimeError,
>)
    ensures
        r == unix_duration(*time),
{
    time.duration_since(std::time::UNIX_EPOCH)
}

/// `Duration::as_secs` gives the whole seconds of the duration.
pub assume_specification[ std::time::Duration::as_secs ](duration: &std::time::Duration) -> (secs:
    u64)
    ensures
        secs == duration_secs(*duration),
;

/// `Duration::subsec_nanos` gives the fraction of a second of the
/// duration, in nanoseconds.
pub assume_specification[ std::time::Duration::subsec_nanos ](
    duration: &std::time::Duration,
) -> (nanos: u32)
    ensures
        nanos == duration_subsec_nanos(*duration),
;

/// Calls `chrono::DateTime::from_timestamp`, which gives `None` for
/// seconds or nanoseconds out of range, and writes the result with
/// `DateTime::format` and the given pattern; the writing fails where
/// `chrono` does not take the pattern. The result is taken to be a
/// function of the three arguments alone; nothing is claimed about
/// when it is `Some`.
#[verifier::external_body]
pub(crate) fn utc_format(secs: i64, nanos: u32, pattern: &str) -> (written: Option<String>)
    ensures
        written matches Some(text) ==> utc_formatted(secs, nanos, pattern@) == Some(text@),
        written is None ==> utc_formatted(secs, nanos, pattern@) is None,
{
    let time = chrono::DateTime::from_timestamp(secs, nanos)?;
    let mut text = String::new();
    write!(text, "{}", time.format(pattern)).ok()?;
    Some(text)
}

} // verus!
