use std::time::Duration;
use std::time::SystemTime;
use std::time::UNIX_EPOCH;

use time_util::parse_system_time_from_str;

use polyio::api::aggregates::convert_time;
use polyio::api::aggregates::format_date;
use polyio::api::aggregates::AggregateReq;
use polyio::api::aggregates::TimeError;
use polyio::api::aggregates::TimeSpan;
use polyio::api::aggregates::UtcTime;

fn time(text: &str) -> SystemTime {
    parse_system_time_from_str(text).unwrap()
}

#[test]
fn time_span_names() {
    assert_eq!(TimeSpan::Minute.as_ref(), "minute");
    assert_eq!(TimeSpan::Hour.as_ref(), "hour");
    assert_eq!(TimeSpan::Day.as_ref(), "day");
    assert_eq!(TimeSpan::Week.as_ref(), "week");
    assert_eq!(TimeSpan::Month.as_ref(), "month");
    assert_eq!(TimeSpan::Quarter.as_ref(), "quarter");
    assert_eq!(TimeSpan::Year.as_ref(), "year");
}

#[test]
fn convert_time_gives_seconds_and_nanoseconds() {
    assert_eq!(convert_time(&UNIX_EPOCH).unwrap(), UtcTime { secs: 0, nanos: 0 });
    assert_eq!(
        convert_time(&(UNIX_EPOCH + Duration::new(1_583_527_402, 638_000_000))).unwrap(),
        UtcTime { secs: 1_583_527_402, nanos: 638_000_000 }
    );
    assert_eq!(
        convert_time(&time("2019-02-04T16:00:00Z")).unwrap(),
        UtcTime { secs: 1_549_296_000, nanos: 0 }
    );
    match convert_time(&(UNIX_EPOCH - Duration::new(0, 1))) {
        Err(TimeError::BeforeEpoch(error)) => assert_eq!(error.duration(), Duration::new(0, 1)),
        other => panic!("unexpected result: {:?}", other),
    }
}

#[test]
fn a_time_before_the_epoch_keeps_how_long_before() {
    let early = UNIX_EPOCH - Duration::from_secs(1);
    match format_date(&early) {
        Err(TimeError::BeforeEpoch(error)) => {
            assert_eq!(error.duration(), Duration::from_secs(1));
            assert_eq!(
                error.duration(),
                early.duration_since(UNIX_EPOCH).unwrap_err().duration()
            );
        },
        other => panic!("unexpected result: {:?}", other),
    }
}

#[test]
fn format_date_writes_year_month_day() {
    assert_eq!(format_date(&UNIX_EPOCH).unwrap(), "1970-01-01");
    assert_eq!(format_date(&time("2018-02-01T00:00:00Z")).unwrap(), "2018-02-01");
    assert_eq!(format_date(&time("2018-02-28T23:59:59.999Z")).unwrap(), "2018-02-28");
    assert_eq!(format_date(&time("2020-02-29T12:00:00Z")).unwrap(), "2020-02-29");
    assert_eq!(
        format_date(&(UNIX_EPOCH + Duration::new(8_210_266_876_799, 999_999_999))).unwrap(),
        "+262142-12-31"
    );
    match format_date(&time("1969-12-31T23:59:59Z")) {
        Err(TimeError::BeforeEpoch(_)) => (),
        other => panic!("unexpected result: {:?}", other),
    }
    let far = UNIX_EPOCH + Duration::new(9_000_000_000_000, 0);
    match format_date(&far) {
        Err(TimeError::OutOfRange) => (),
        other => panic!("unexpected result: {:?}", other),
    }
}

#[test]
fn request_path() {
    let request = AggregateReq {
        symbol: "AAPL".into(),
        time_span: TimeSpan::Day,
        multiplier: 1,
        start_time: time("2018-02-01T00:00:00Z"),
        end_time: time("2018-03-01T00:00:00Z"),
    };
    assert_eq!(
        request.path().unwrap(),
        "/v2/aggs/ticker/AAPL/range/1/day/2018-02-01/2018-03-01"
    );

    let request = AggregateReq {
        symbol: "SPY".into(),
        time_span: TimeSpan::Minute,
        multiplier: 205,
        start_time: time("2020-01-30T00:00:00Z"),
        end_time: time("2020-01-31T00:00:00Z"),
    };
    assert_eq!(
        request.path().unwrap(),
        "/v2/aggs/ticker/SPY/range/205/minute/2020-01-30/2020-01-31"
    );
    assert_eq!(request.clone(), request);
}

#[test]
fn request_path_needs_two_dates() {
    let request = AggregateReq {
        symbol: "VMW".into(),
        time_span: TimeSpan::Minute,
        multiplier: 5,
        start_time: UNIX_EPOCH - Duration::new(1, 0),
        end_time: time("2017-01-01T00:00:00Z"),
    };
    match request.path() {
        Err(TimeError::BeforeEpoch(error)) => assert_eq!(error.duration(), Duration::new(1, 0)),
        other => panic!("unexpected result: {:?}", other),
    }
    let request = AggregateReq {
        symbol: "VMW".into(),
        time_span: TimeSpan::Minute,
        multiplier: 5,
        start_time: time("2017-01-01T00:00:00Z"),
        end_time: UNIX_EPOCH + Duration::new(9_000_000_000_000, 0),
    };
    match request.path() {
        Err(TimeError::OutOfRange) => (),
        other => panic!("unexpected result: {:?}", other),
    }
}
