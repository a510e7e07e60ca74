//! Requests for the aggregates of a stock over a span of time.

use vstd::prelude::*;
use vstd::string::StringExecFns;

use crate::text::decimal_u8;
use crate::text::spec_decimal;
use crate::time::duration_secs;
use crate::time::duration_subsec_nanos;
use crate::time::since_epoch;
use crate::time::unix_duration;
use crate::time::utc_format;
use crate::time::utc_formatted;

verus! {

/// Why a time cannot be written as a date.
#[derive(Debug)]
pub enum TimeError {
    /// The time lies before 1970-01-01T00:00:00Z; the error of the
    /// standard library holds how long before.
    BeforeEpoch(std::time::SystemTimeError),
    /// The time lies beyond the dates that can be written.
    OutOfRange,
}

/// An instant as seconds and nanoseconds after 1970-01-01T00:00:00Z.
#[derive(Clone, Copy, Debug, PartialEq, Eq, Structural)]
pub struct UtcTime {
    pub secs: i64,
    pub nanos: u32,
}

/// The instant of a `SystemTime`, or why it has none.
pub open spec fn spec_convert_time(time: std::time::SystemTime) -> Result<UtcTime, TimeError> {
    match unix_duration(time) {
        Err(error) => Err(TimeError::BeforeEpoch(error)),
        Ok(duration) => if duration_secs(duration) > i64::MAX {
            Err(TimeError::OutOfRange)
        } else {
            Ok(
                UtcTime {
                    secs: duration_secs(duration) as i64,
                    nanos: duration_subsec_nanos(duration),
                },
            )
        },
    }
}

/// The pattern of a date: year, month and day, with hyphens between.
pub open spec fn spec_date_pattern() -> Seq<char> {
    "%Y-%m-%d"@
}

/// The date of a `SystemTime`, or why it has none.
pub open spec fn spec_format_date(time: std::time::SystemTime) -> Result<Seq<char>, TimeError> {
    match spec_convert_time(time) {
        Err(error) => Err(error),
        Ok(instant) => match utc_formatted(instant.secs, instant.nanos, spec_date_pattern()) {
            Some(date) => Ok(date),
            None => Err(TimeError::OutOfRange),
        },
    }
}

/// Convert a `SystemTime` into seconds and nanoseconds since the epoch.
pub fn convert_time(time: &std::time::SystemTime) -> (r: Result<UtcTime, TimeError>)
    ensures
        r == spec_convert_time(*time),
{
    match since_epoch(time) {
        Err(error) => Err(TimeError::BeforeEpoch(error)),
        Ok(duration) => {
            let secs = duration.as_secs();
            let nanos = duration.subsec_nanos();
            if secs > 0x7fff_ffff_ffff_ffffu64 {
                Err(TimeError::OutOfRange)
            } else {
                Ok(UtcTime { secs: secs as i64, nanos })
            }
        },
    }
}

/// Format a system time as a date: year, month and day, with hyphens
/// between.
pub fn format_date(time: &std::time::SystemTime) -> (r: Result<String, TimeError>)
    ensures
        match r {
            Ok(date) => spec_format_date(*time) == Ok::<Seq<char>, TimeError>(date@),
            Err(error) => spec_format_date(*time) == Err::<Seq<char>, TimeError>(error),
        },
{
    let instant = convert_time(time)?;
    match utc_format(instant.secs, instant.nanos, "%Y-%m-%d") {
        Some(date) => Ok(date),
        None => Err(TimeError::OutOfRange),
    }
}

/// An enumeration of the various supported time span values.
#[derive(Clone, Copy, Debug, PartialEq, Eq, Structural)]
pub enum TimeSpan {
    /// A minutely aggregate.
    Minute,
    /// A hourly aggregate.
    Hour,
    /// A daily aggregate.
    Day,
    /// A weekly aggregate.
    Week,
    /// A monthly aggregate.
    Month,
    /// A quarterly aggregate.
    Quarter,
    /// A yearly aggregate.
    Year,
}

impl TimeSpan {
    /// The name of the time span in a request path.
    pub open spec fn spec_name(self) -> Seq<char> {
        match self {
            TimeSpan::Minute => "minute"@,
            TimeSpan::Hour => "hour"@,
            TimeSpan::Day => "day"@,
            TimeSpan::Week => "week"@,
            TimeSpan::Month => "month"@,
            TimeSpan::Quarter => "quarter"@,
            TimeSpan::Year => "year"@,
        }
    }
}

impl AsRef<str> for TimeSpan {
    fn as_ref(&self) -> (name: &'static str)
        ensures
            name@ == self.spec_name(),
    {
        match *self {
            TimeSpan::Minute => "minute",
            TimeSpan::Hour => "hour",
            TimeSpan::Day => "day",
            TimeSpan::Week => "week",
            TimeSpan::Month => "month",
            TimeSpan::Quarter => "quarter",
            TimeSpan::Year => "year",
        }
    }
}

/// A GET request to be made to the
/// /v2/aggs/ticker/<symbol>/range/<multiplier>/<span>/<start>/<end>
/// endpoint.
#[derive(Clone, Debug, PartialEq)]
pub struct AggregateReq {
    /// The ticker symbol to request aggregated data for.
    pub symbol: String,
    /// The aggregated time span.
    pub time_span: TimeSpan,
    /// The time span multiplier to use.
    pub multiplier: u8,
    /// The start time to request aggregates for.
    pub start_time: std::time::SystemTime,
    /// The end time to request aggregates for.
    ///
    /// Note that the reported aggregates will *not* include this time,
    /// i.e., the range is exclusive of this end date.
    pub end_time: std::time::SystemTime,
}

impl AggregateReq {
    /// The path of the request, or why one of its two times has no
    /// date.
    pub open spec fn spec_path(self) -> Result<Seq<char>, TimeError> {
        match spec_format_date(self.start_time) {
            Err(error) => Err(error),
            Ok(start) => match spec_format_date(self.end_time) {
                Err(error) => Err(error),
                Ok(end) => Ok(
                    "/v2/aggs/ticker/"@ + self.symbol@ + "/range/"@ + spec_decimal(
                        self.multiplier as nat,
                    ) + "/"@ + self.time_span.spec_name() + "/"@ + start + "/"@ + end,
                ),
            },
        }
    }

    /// The path of the request:
    /// /v2/aggs/ticker/<symbol>/range/<multiplier>/<span>/<start>/<end>,
    /// with the two times written as dates.
    pub fn path(&self) -> (r: Result<String, TimeError>)
        ensures
            match r {
                Ok(path) => self.spec_path() == Ok::<Seq<char>, TimeError>(path@),
                Err(error) => self.spec_path() == Err::<Seq<char>, TimeError>(error),
            },
    {
        let start = format_date(&self.start_time)?;
        let end = format_date(&self.end_time)?;
        let multiplier = decimal_u8(self.multiplier);
        let mut path = String::from_str("/v2/aggs/ticker/");
        path.append(self.symbol.as_str());
        path.append("/range/");
        path.append(multiplier.as_str());
        path.append("/");
        path.append(self.time_span.as_ref());
        path.append("/");
        path.append(start.as_str());
        path.append("/");
        path.append(end.as_str());
        Ok(path)
    }
}

} // verus!
