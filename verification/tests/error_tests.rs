use span::builder::FormatConfig;
use span::builder::SpanBuilder;
use span::date::Date;
use span::datetime::DateTime;
use span::datetime::DateTimeUnit;
use span::error::DateError;
use span::error::DateTimeError;
use span::error::SpanError;
use span::error::TimeError;
use span::time::Time;

fn cfg() -> FormatConfig {
    SpanBuilder::builder().build()
}

#[test]
fn log_error_datetime_parse_timestamp() {
    let err = SpanError::DateTime(
        Box::new(SpanError::ParseFromTimestamp(
            "parse_from_timestamp error".to_string(),
        )),
        DateTimeError,
    );
    assert_eq!(
        err.message(),
        "DateTime ➤  ParseFromTimestamp: parse_from_timestamp error"
    )
}

#[test]
fn log_error_datetime_invalid_update() {
    let err = SpanError::DateTime(
        Box::new(SpanError::InvalidUpdate(
            "Cannot add x Day to datetime error".to_string(),
        )),
        DateTimeError,
    );
    assert_eq!(
        err.message(),
        "DateTime ➤  InvalidUpdate: Cannot add x Day to datetime error"
    )
}

#[test]
fn log_error_date_invalid_update() {
    let err = SpanError::Date(
        Box::new(SpanError::InvalidUpdate(
            "Cannot add x Month to date error".to_string(),
        )),
        DateError,
    );
    assert_eq!(
        err.message(),
        "Date ➤  InvalidUpdate: Cannot add x Month to date error"
    )
}

#[test]
fn log_error_time_invalid_update() {
    let err = SpanError::Time(
        Box::new(SpanError::InvalidUpdate(
            "Cannot add x Second to time error".to_string(),
        )),
        TimeError,
    );
    assert_eq!(
        err.message(),
        "Time ➤  InvalidUpdate: Cannot add x Second to time error"
    )
}

#[test]
fn invalid_date_on_impossible_fields() {
    let r = DateTime::new(2023, 2, 30, &cfg());
    assert_eq!(
        r,
        Err(SpanError::DateTime(
            Box::new(SpanError::InvalidDate(2023, 2, 30)),
            DateTimeError
        ))
    );
    assert_eq!(
        r.unwrap_err().message(),
        "DateTime ➤  Invalid date: 2023-2-30"
    );
}

#[test]
fn invalid_time_on_impossible_fields() {
    let r = Time::new(24, 0, 0, &cfg());
    assert_eq!(
        r,
        Err(SpanError::Time(
            Box::new(SpanError::InvalidTime(24, 0, 0)),
            TimeError
        ))
    );
    assert_eq!(r.unwrap_err().message(), "Time ➤  Invalid time: 24:0:0");
    let r2 = DateTime::new(2023, 10, 9, &cfg()).unwrap().with_time(12, 60, 0);
    assert_eq!(
        r2,
        Err(SpanError::DateTime(
            Box::new(SpanError::InvalidTime(12, 60, 0)),
            DateTimeError
        ))
    );
}

#[test]
fn parse_from_str_on_mismatch() {
    let r = Date::new("2023/10/09", "%Y-%m-%d");
    assert_eq!(
        r,
        Err(SpanError::Date(
            Box::new(SpanError::ParseFromStr(
                "input does not match the pattern".to_string()
            )),
            DateError
        ))
    );
}

#[test]
fn parse_from_str_on_out_of_range() {
    let r = Date::new("2023-13-01", "%Y-%m-%d");
    assert_eq!(
        r,
        Err(SpanError::Date(
            Box::new(SpanError::ParseFromStr("input is out of range".to_string())),
            DateError
        ))
    );
}

#[test]
fn parse_from_str_on_missing_fields() {
    let r = Date::new("2023-10", "%Y-%m");
    assert_eq!(
        r,
        Err(SpanError::Date(
            Box::new(SpanError::ParseFromStr(
                "input is not enough for a unique value".to_string()
            )),
            DateError
        ))
    );
}

#[test]
fn parse_from_str_on_trailing_input() {
    let r = Time::parse("12:21:46x", "%H:%M:%S");
    assert_eq!(
        r,
        Err(SpanError::Time(
            Box::new(SpanError::ParseFromStr(
                "input does not match the pattern".to_string()
            )),
            TimeError
        ))
    );
}

#[test]
fn parse_from_timestamp_out_of_range() {
    let r = DateTime::from_timestamp(i64::MAX, &cfg());
    assert_eq!(
        r,
        Err(SpanError::ParseFromTimestamp(
            "Error while parsing timestamp".to_string()
        ))
    );
}

#[test]
fn clear_unit_year_on_leap_day() -> Result<(), SpanError> {
    let datetime = DateTime::new(2024, 2, 29, &cfg())?;
    let r = datetime.clear_unit(DateTimeUnit::Year);
    assert_eq!(
        r,
        Err(SpanError::DateTime(
            Box::new(SpanError::ClearUnit(
                "Error while setting year to 1970".to_string()
            )),
            DateTimeError
        ))
    );
    Ok(())
}

#[test]
fn messages_of_remaining_variants() {
    assert_eq!(
        SpanError::InvalidUtc.message(),
        "Invalid Utc TryFrom / TryInto"
    );
    assert_eq!(
        SpanError::ClearTime("reset failed".to_string()).message(),
        "ClearTime: reset failed"
    );
    assert_eq!(
        SpanError::InvalidDateTime(2023, 10, 9, 25, 0, 0).message(),
        "Invalid datetime: 2023-10-9 25:0:0"
    );
}

#[test]
fn error_equality_distinguishes_contexts() {
    let a = SpanError::Date(
        Box::new(SpanError::InvalidUpdate("x".to_string())),
        DateError,
    );
    let b = SpanError::Time(
        Box::new(SpanError::InvalidUpdate("x".to_string())),
        TimeError,
    );
    let c = SpanError::Date(
        Box::new(SpanError::InvalidUpdate("y".to_string())),
        DateError,
    );
    assert_ne!(a, b);
    assert_ne!(a, c);
    assert_eq!(
        a,
        SpanError::Date(
            Box::new(SpanError::InvalidUpdate("x".to_string())),
            DateError
        )
    );
}
