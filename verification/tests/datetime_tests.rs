use span::builder::FormatConfig;
use span::builder::SpanBuilder;
use span::date::Date;
use span::datetime::DateTime;
use span::datetime::DateTimeUnit;
use span::error::DateTimeError;
use span::error::SpanError;
use span::time::Time;
use span::timestamp::TimestampMicro;
use span::timestamp::TimestampMilli;
use span::timestamp::TimestampNano;

fn cfg() -> FormatConfig {
    SpanBuilder::builder().build()
}

#[test]
fn datetime_add_overflow() -> Result<(), SpanError> {
    let datetime = DateTime::new(2023, 10, 09, &cfg())?;
    let new_datetime = datetime.update(DateTimeUnit::Day, i32::MAX);
    assert_eq!(
        new_datetime,
        Err(SpanError::DateTime(
            Box::new(SpanError::InvalidUpdate(
                "Cannot Add/Remove 2147483647 Day to/from 2023-10-09 00:00:00".to_string()
            )),
            DateTimeError
        ))
    );
    Ok(())
}

#[test]
fn datetime_add_one_year() -> Result<(), SpanError> {
    let datetime = DateTime::new(2023, 10, 09, &cfg())?;
    let new_datetime = datetime.update(DateTimeUnit::Year, 1)?;
    assert_eq!(new_datetime.render(), "2024-10-09 00:00:00".to_string());
    Ok(())
}

#[test]
fn datetime_remove_one_year() -> Result<(), SpanError> {
    let datetime = DateTime::new(2023, 10, 09, &cfg())?;
    let new_datetime = datetime.update(DateTimeUnit::Year, -1)?;
    assert_eq!(new_datetime.render(), "2022-10-09 00:00:00".to_string());
    Ok(())
}

#[test]
fn datetime_add_one_month() -> Result<(), SpanError> {
    let datetime = DateTime::new(2023, 10, 09, &cfg())?;
    let new_datetime = datetime.update(DateTimeUnit::Month, 1)?;
    assert_eq!(new_datetime.render(), "2023-11-09 00:00:00".to_string());
    Ok(())
}

#[test]
fn datetime_remove_one_month() -> Result<(), SpanError> {
    let datetime = DateTime::new(2023, 10, 09, &cfg())?;
    let new_datetime = datetime.update(DateTimeUnit::Month, -1)?;
    assert_eq!(new_datetime.render(), "2023-09-09 00:00:00".to_string());
    Ok(())
}

#[test]
fn datetime_add_one_day() -> Result<(), SpanError> {
    let datetime = DateTime::new(2023, 10, 09, &cfg())?;
    let new_datetime = datetime.update(DateTimeUnit::Day, 1)?;
    assert_eq!(new_datetime.render(), "2023-10-10 00:00:00".to_string());
    Ok(())
}

#[test]
fn datetime_remove_one_day() -> Result<(), SpanError> {
    let datetime = DateTime::new(2023, 10, 09, &cfg())?;
    let new_datetime = datetime.update(DateTimeUnit::Day, -1)?;
    assert_eq!(new_datetime.render(), "2023-10-08 00:00:00".to_string());
    Ok(())
}

#[test]
fn datetime_add_one_hour() -> Result<(), SpanError> {
    let datetime = DateTime::new(2023, 10, 09, &cfg())?;
    let new_datetime = datetime.update(DateTimeUnit::Hour, 1)?;
    assert_eq!(new_datetime.render(), "2023-10-09 01:00:00".to_string());
    Ok(())
}

#[test]
fn datetime_remove_one_hour() -> Result<(), SpanError> {
    let datetime = DateTime::new(2023, 10, 09, &cfg())?;
    let new_datetime = datetime.update(DateTimeUnit::Hour, -1)?;
    assert_eq!(new_datetime.render(), "2023-10-08 23:00:00".to_string());
    Ok(())
}

#[test]
fn datetime_add_one_minute() -> Result<(), SpanError> {
    let datetime = DateTime::new(2023, 10, 09, &cfg())?;
    let new_datetime = datetime.update(DateTimeUnit::Minute, 1)?;
    assert_eq!(new_datetime.render(), "2023-10-09 00:01:00".to_string());
    Ok(())
}

#[test]
fn datetime_remove_one_minute() -> Result<(), SpanError> {
    let datetime = DateTime::new(2023, 10, 09, &cfg())?;
    let new_datetime = datetime.update(DateTimeUnit::Minute, -1)?;
    assert_eq!(new_datetime.render(), "2023-10-08 23:59:00".to_string());
    Ok(())
}

#[test]
fn datetime_add_one_second() -> Result<(), SpanError> {
    let datetime = DateTime::new(2023, 10, 09, &cfg())?;
    let new_datetime = datetime.update(DateTimeUnit::Second, 1)?;
    assert_eq!(new_datetime.render(), "2023-10-09 00:00:01".to_string());
    Ok(())
}

#[test]
fn datetime_remove_one_second() -> Result<(), SpanError> {
    let datetime = DateTime::new(2023, 10, 09, &cfg())?;
    let new_datetime = datetime.update(DateTimeUnit::Second, -1)?;
    assert_eq!(new_datetime.render(), "2023-10-08 23:59:59".to_string());
    Ok(())
}

#[test]
fn mod_next_month_january_to_february() -> Result<(), SpanError> {
    let mut datetime = DateTime::new(2023, 01, 31, &cfg())?.with_time(12, 09, 27)?;
    datetime = datetime.next(DateTimeUnit::Month)?;
    assert_eq!(datetime.render(), "2023-02-28 12:09:27".to_string());
    Ok(())
}

#[test]
fn mod_next_month_february_to_march() -> Result<(), SpanError> {
    let mut datetime = DateTime::new(2023, 02, 28, &cfg())?.with_time(12, 09, 27)?;
    datetime = datetime.next(DateTimeUnit::Month)?;
    assert_eq!(datetime.render(), "2023-03-28 12:09:27".to_string());
    Ok(())
}

#[test]
fn mod_next_month() -> Result<(), SpanError> {
    let mut datetime = DateTime::new(2023, 10, 09, &cfg())?;
    datetime = datetime.next(DateTimeUnit::Month)?;
    assert_eq!(datetime.render(), "2023-11-09 00:00:00".to_string());
    Ok(())
}

#[test]
fn mod_next_minute() -> Result<(), SpanError> {
    let mut datetime = DateTime::new(2023, 10, 09, &cfg())?;
    datetime = datetime.next(DateTimeUnit::Minute)?;
    assert_eq!(datetime.render(), "2023-10-09 00:01:00".to_string());
    Ok(())
}

#[test]
fn mod_next_month_on_december() -> Result<(), SpanError> {
    let mut datetime = DateTime::new(2023, 12, 09, &cfg())?;
    datetime = datetime.next(DateTimeUnit::Month)?;
    assert_eq!(datetime.render(), "2024-01-09 00:00:00".to_string());
    Ok(())
}

#[test]
fn mod_next_hour_on_midnight() -> Result<(), SpanError> {
    let mut datetime = DateTime::new(2023, 10, 09, &cfg())?.with_time(23, 59, 34)?;
    datetime = datetime.next(DateTimeUnit::Hour)?;
    assert_eq!(datetime.render(), "2023-10-10 00:59:34".to_string());
    Ok(())
}

#[test]
fn mod_next_day_28_february_leap_year() -> Result<(), SpanError> {
    let mut datetime = DateTime::new(2024, 02, 28, &cfg())?;
    datetime = datetime.next(DateTimeUnit::Day)?;
    assert_eq!(datetime.render(), "2024-02-29 00:00:00".to_string());
    Ok(())
}

#[test]
fn mod_next_day_28_february_non_leap_year() -> Result<(), SpanError> {
    let mut datetime = DateTime::new(2023, 02, 28, &cfg())?;
    datetime = datetime.next(DateTimeUnit::Day)?;
    assert_eq!(datetime.render(), "2023-03-01 00:00:00".to_string());
    Ok(())
}

#[test]
fn matches_every_unit_in_datetime() -> Result<(), SpanError> {
    let datetime = DateTime::new(2023, 10, 09, &cfg())?.with_time(05, 23, 18)?;
    assert!(datetime.matches(DateTimeUnit::Year, 2023));
    assert!(datetime.matches(DateTimeUnit::Month, 10));
    assert!(datetime.matches(DateTimeUnit::Day, 9));
    assert!(datetime.matches(DateTimeUnit::Hour, 5));
    assert!(datetime.matches(DateTimeUnit::Minute, 23));
    assert!(datetime.matches(DateTimeUnit::Second, 18));
    Ok(())
}

#[test]
fn mod_is_in_future_yesterday() -> Result<(), SpanError> {
    let mut datetime = DateTime::now(&cfg())?;
    datetime = datetime.update(DateTimeUnit::Day, -1)?;
    assert!(!datetime.is_in_future()?);
    Ok(())
}

#[test]
fn mod_is_in_future_tomorrow() -> Result<(), SpanError> {
    let mut datetime = DateTime::now(&cfg())?;
    datetime = datetime.update(DateTimeUnit::Day, 1)?;
    assert!(datetime.is_in_future()?);
    Ok(())
}

#[test]
fn mod_is_in_future_now() -> Result<(), SpanError> {
    let datetime = DateTime::now(&cfg())?;
    assert!(!datetime.is_in_future()?);
    Ok(())
}

#[test]
fn mod_elapsed_one_year() -> Result<(), SpanError> {
    let datetime = DateTime::new(2023, 10, 09, &cfg())?;
    let lhs = DateTime::new(2022, 10, 09, &cfg())?;
    assert_eq!(
        datetime.elapsed(&lhs),
        chrono::TimeDelta::try_days(365).unwrap().num_seconds()
    );
    Ok(())
}

#[test]
fn mod_elapsed_one_second() -> Result<(), SpanError> {
    let datetime = DateTime::new(2023, 10, 09, &cfg())?.with_time(00, 00, 01)?;
    let lhs = DateTime::new(2023, 10, 09, &cfg())?.with_time(00, 00, 00)?;
    assert_eq!(
        datetime.elapsed(&lhs),
        chrono::TimeDelta::try_seconds(1).unwrap().num_seconds()
    );
    Ok(())
}

#[test]
fn mod_elapsed_multiple_units() -> Result<(), SpanError> {
    let datetime = DateTime::new(2023, 10, 09, &cfg())?.with_time(01, 01, 01)?;
    let lhs = DateTime::new(2023, 10, 08, &cfg())?;
    assert_eq!(
        datetime.elapsed(&lhs),
        chrono::TimeDelta::try_days(1)
            .unwrap()
            .checked_add(&chrono::TimeDelta::try_hours(1).unwrap())
            .unwrap()
            .checked_add(&chrono::TimeDelta::try_minutes(1).unwrap())
            .unwrap()
            .checked_add(&chrono::TimeDelta::try_seconds(1).unwrap())
            .unwrap()
            .num_seconds()
    );
    Ok(())
}

#[test]
fn mod_unit_elapsed() -> Result<(), SpanError> {
    let datetime = DateTime::new(2023, 10, 09, &cfg())?.with_time(01, 01, 01)?;
    let rhs = DateTime::new(2023, 10, 08, &cfg())?.with_time(00, 00, 00)?;
    let years_in_between = datetime.unit_elapsed(&rhs, DateTimeUnit::Year)?;
    let months_in_between = datetime.unit_elapsed(&rhs, DateTimeUnit::Month)?;
    let days_in_between = datetime.unit_elapsed(&rhs, DateTimeUnit::Day)?;
    let hours_in_between = datetime.unit_elapsed(&rhs, DateTimeUnit::Hour)?;
    let minutes_in_between = datetime.unit_elapsed(&rhs, DateTimeUnit::Minute)?;
    let seconds_in_between = datetime.unit_elapsed(&rhs, DateTimeUnit::Second)?;
    assert_eq!(years_in_between, 0);
    assert_eq!(months_in_between, 0);
    assert_eq!(days_in_between, 1);
    assert_eq!(hours_in_between, days_in_between * 24 + 1);
    assert_eq!(minutes_in_between, hours_in_between * 60 + 1);
    assert_eq!(seconds_in_between, minutes_in_between * 60 + 1);
    Ok(())
}

#[test]
fn mod_unit_elapsed_leap_year_days() -> Result<(), SpanError> {
    let datetime = DateTime::new(2024, 03, 12, &cfg())?;
    let rhs = DateTime::new(2024, 01, 12, &cfg())?;
    let years_in_between = datetime.unit_elapsed(&rhs, DateTimeUnit::Year)?;
    let months_in_between = datetime.unit_elapsed(&rhs, DateTimeUnit::Month)?;
    let days_in_between = datetime.unit_elapsed(&rhs, DateTimeUnit::Day)?;
    assert_eq!(years_in_between, 0);
    assert_eq!(months_in_between, years_in_between * 12 + 2);
    assert_eq!(days_in_between, 60);
    Ok(())
}

#[test]
fn mod_unit_elapsed_non_leap_year_days() -> Result<(), SpanError> {
    let datetime = DateTime::new(2023, 03, 12, &cfg())?;
    let rhs = DateTime::new(2023, 01, 12, &cfg())?;
    let years_in_between = datetime.unit_elapsed(&rhs, DateTimeUnit::Year)?;
    let months_in_between = datetime.unit_elapsed(&rhs, DateTimeUnit::Month)?;
    let days_in_between = datetime.unit_elapsed(&rhs, DateTimeUnit::Day)?;
    assert_eq!(years_in_between, 0);
    assert_eq!(months_in_between, years_in_between * 12 + 2);
    assert_eq!(days_in_between, 59);
    Ok(())
}

#[test]
fn clear_time() -> Result<(), SpanError> {
    let datetime = DateTime::new(2023, 10, 09, &cfg())?.with_time(01, 01, 01)?;
    let datetime = datetime.clear_time(&cfg());
    assert_eq!(datetime.render(), "2023-10-09 00:00:00".to_string());
    Ok(())
}

#[test]
fn datetime_clear_unit() -> Result<(), SpanError> {
    let datetime = DateTime::build("2023-05-17 09:05:12", &cfg())?;
    let year = datetime.clear_unit(DateTimeUnit::Year)?;
    assert_eq!(year.render(), "1970-05-17 09:05:12".to_string());
    let month = datetime.clear_unit(DateTimeUnit::Month)?;
    assert_eq!(month.render(), "2023-01-17 09:05:12".to_string());
    let day = datetime.clear_unit(DateTimeUnit::Day)?;
    assert_eq!(day.render(), "2023-05-01 09:05:12".to_string());
    let hour = datetime.clear_unit(DateTimeUnit::Hour)?;
    assert_eq!(hour.render(), "2023-05-17 00:05:12".to_string());
    let minute = datetime.clear_unit(DateTimeUnit::Minute)?;
    assert_eq!(minute.render(), "2023-05-17 09:00:12".to_string());
    let second = datetime.clear_unit(DateTimeUnit::Second)?;
    assert_eq!(second.render(), "2023-05-17 09:05:00".to_string());
    Ok(())
}

#[test]
fn datetime_from_timestamp_milli() -> Result<(), SpanError> {
    let timestamp: TimestampMilli = 1735683010000i64.into();
    let datetime: DateTime = DateTime::from_timestamp_milli(timestamp, &cfg())?;
    assert_eq!(datetime.render(), "2024-12-31 22:10:10");
    Ok(())
}

#[test]
fn datetime_from_timestamp_micro() -> Result<(), SpanError> {
    let timestamp: TimestampMicro = 1735683010000000i64.into();
    let datetime: DateTime = DateTime::from_timestamp_micro(timestamp, &cfg())?;
    assert_eq!(datetime.render(), "2024-12-31 22:10:10");
    Ok(())
}

#[test]
fn datetime_from_timestamp_nano() -> Result<(), SpanError> {
    let timestamp: TimestampNano = 1735683010000000000i64.into();
    let datetime: DateTime = DateTime::from_timestamp_nano(timestamp, &cfg())?;
    assert_eq!(datetime.render(), "2024-12-31 22:10:10");
    Ok(())
}

#[test]
fn timestamp_milli_into_datetime() -> Result<(), SpanError> {
    let timestamp: TimestampMilli = 1735683010000i64.into();
    let datetime = DateTime::from_timestamp_milli(timestamp, &cfg())?;
    assert_eq!(datetime.render(), "2024-12-31 22:10:10");
    Ok(())
}

#[test]
fn timestamp_micro_into_datetime() -> Result<(), SpanError> {
    let timestamp: TimestampMicro = 1735683010000000i64.into();
    let datetime = DateTime::from_timestamp_micro(timestamp, &cfg())?;
    assert_eq!(datetime.render(), "2024-12-31 22:10:10");
    Ok(())
}

#[test]
fn timestamp_nano_into_datetime() -> Result<(), SpanError> {
    let timestamp: TimestampNano = 1735683010000000000i64.into();
    let datetime = DateTime::from_timestamp_nano(timestamp, &cfg())?;
    assert_eq!(datetime.render(), "2024-12-31 22:10:10");
    Ok(())
}

#[test]
fn i64_into_datetime() -> Result<(), SpanError> {
    let datetime = DateTime::from_timestamp_milli(TimestampMilli::from(1735683010000i64), &cfg())?;
    assert_eq!(datetime.render(), "2024-12-31 22:10:10");
    Ok(())
}

#[test]
fn datetime_timestamp_value() -> Result<(), SpanError> {
    let datetime = DateTime::new(2024, 12, 31, &cfg())?.with_time(22, 10, 10)?;
    assert_eq!(datetime.timestamp(), 1735683010);
    let epoch = DateTime::new(1970, 1, 1, &cfg())?;
    assert_eq!(epoch.timestamp(), 0);
    Ok(())
}

#[test]
fn date_into_datetime() -> Result<(), SpanError> {
    let date = Date::new("2023-10-09", "%Y-%m-%d")?;
    let datetime = DateTime::from_date(&date, &cfg());
    assert_eq!(datetime.render(), "2023-10-09 00:00:00".to_string());
    Ok(())
}

#[test]
fn time_into_datetime() -> Result<(), SpanError> {
    let time = Time::new(13, 27, 57, &cfg())?;
    let datetime = DateTime::from_time(&time, &cfg());
    assert_eq!(datetime.render(), "1970-01-01 13:27:57".to_string());
    Ok(())
}
