use span::builder::FormatConfig;
use span::builder::SpanBuilder;
use span::date::Date;
use span::date::DateUnit;
use span::datetime::DateTime;
use span::datetime::DateTimeUnit;
use span::error::SpanError;
use span::time::Time;
use span::time::TimeUnit;

fn cfg() -> FormatConfig {
    SpanBuilder::builder().build()
}

#[test]
fn round_trip_date_default_pattern() -> Result<(), SpanError> {
    let date = Date::new("2023-10-09", "%Y-%m-%d")?;
    let again = Date::new(date.render().as_str(), "%Y-%m-%d")?;
    assert_eq!(date, again);
    Ok(())
}

#[test]
fn round_trip_date_rearranged_pattern() -> Result<(), SpanError> {
    let date = Date::new("09/10/2023", "%d/%m/%Y")?;
    let again = Date::new(date.render().as_str(), "%d/%m/%Y")?;
    assert_eq!(date, again);
    assert_eq!(date.render(), "09/10/2023".to_string());
    Ok(())
}

#[test]
fn round_trip_time_pattern() -> Result<(), SpanError> {
    let time = Time::parse("T12_21_46", "T%H_%M_%S")?;
    let again = Time::parse(time.render().as_str(), "T%H_%M_%S")?;
    assert_eq!(time, again);
    Ok(())
}

#[test]
fn round_trip_datetime_pattern() -> Result<(), SpanError> {
    let datetime = DateTime::parse("09/10/2023T05_23_18", "%d/%m/%YT%H_%M_%S")?;
    let again = DateTime::parse(datetime.render().as_str(), "%d/%m/%YT%H_%M_%S")?;
    assert_eq!(datetime, again);
    Ok(())
}

#[test]
fn month_clamp_january_leap_year() -> Result<(), SpanError> {
    let date = Date::new("2024-01-31", "%Y-%m-%d")?;
    let clamped = date.update(DateUnit::Month, 1)?;
    assert_eq!(clamped.render(), "2024-02-29".to_string());
    Ok(())
}

#[test]
fn datetime_hour_overflow_errors() -> Result<(), SpanError> {
    let datetime = DateTime::new(2023, 10, 9, &cfg())?;
    assert!(datetime.update(DateTimeUnit::Hour, i32::MAX).is_err());
    assert!(datetime.update(DateTimeUnit::Hour, i32::MIN).is_err());
    Ok(())
}

#[test]
fn date_remove_overflow_errors() -> Result<(), SpanError> {
    let date = Date::build("2023-10-09", &cfg())?;
    assert!(date.update(DateUnit::Day, i32::MIN).is_err());
    assert!(date.update(DateUnit::Year, i32::MIN).is_err());
    Ok(())
}

#[test]
fn time_wraps_instead_of_overflowing() -> Result<(), SpanError> {
    let time = Time::new(0, 0, 0, &cfg())?;
    let back = time.update(TimeUnit::Hour, -1)?;
    assert_eq!(back.render(), "23:00:00".to_string());
    let huge = time.update(TimeUnit::Second, i32::MAX)?;
    assert_eq!(huge.render(), "03:14:07".to_string());
    Ok(())
}

#[test]
fn unit_elapsed_order_does_not_matter() -> Result<(), SpanError> {
    let a = DateTime::new(2023, 10, 9, &cfg())?.with_time(1, 1, 1)?;
    let b = DateTime::new(2023, 10, 8, &cfg())?;
    assert_eq!(
        a.unit_elapsed(&b, DateTimeUnit::Hour)?,
        b.unit_elapsed(&a, DateTimeUnit::Hour)?
    );
    assert_eq!(
        a.unit_elapsed(&b, DateTimeUnit::Second)?,
        b.unit_elapsed(&a, DateTimeUnit::Second)?
    );
    assert_eq!(a.elapsed(&b), -b.elapsed(&a));
    Ok(())
}

#[test]
fn conversion_identity_date() -> Result<(), SpanError> {
    let date = Date::new("2023-10-09", "%Y-%m-%d")?;
    let widened = DateTime::from_date(&date, &cfg());
    let narrowed = widened.to_date(&cfg());
    assert_eq!(narrowed, date);
    Ok(())
}

#[test]
fn conversion_identity_time() -> Result<(), SpanError> {
    let time = Time::new(13, 27, 57, &cfg())?;
    let widened = DateTime::from_time(&time, &cfg());
    let narrowed = widened.to_time(&cfg());
    assert_eq!(narrowed, time);
    Ok(())
}

#[test]
fn clear_time_renders_midnight_suffix() -> Result<(), SpanError> {
    let datetime = DateTime::new(2023, 10, 9, &cfg())?.with_time(17, 45, 3)?;
    let cleared = datetime.clear_time(&cfg());
    assert!(cleared.render().ends_with("00:00:00"));
    Ok(())
}

#[test]
fn registry_isolation() -> Result<(), SpanError> {
    let date = Date::build("2023-10-09", &cfg())?;
    let reconfigured = SpanBuilder::builder().date_format("%d/%m/%Y").build();
    assert_eq!(date.render(), "2023-10-09".to_string());
    assert_eq!(date.format, "%Y-%m-%d".to_string());
    let under_new_default = Date::build("09/10/2023", &reconfigured)?;
    assert_eq!(under_new_default.render(), "09/10/2023".to_string());
    assert_eq!(date.render(), "2023-10-09".to_string());
    Ok(())
}

#[test]
fn builder_format_default() -> Result<(), SpanError> {
    let config = SpanBuilder::builder().build();
    let datetime = DateTime::new(2023, 01, 01, &config)?.with_time(12, 00, 00)?;
    assert_eq!(datetime.render(), "2023-01-01 12:00:00");
    let date = Date::new("2023-01-01", "%Y-%m-%d")?;
    assert_eq!(date.render(), "2023-01-01");
    let time = Time::new(12, 00, 00, &config)?;
    assert_eq!(time.render(), "12:00:00");
    Ok(())
}

#[test]
fn builder_format_build() -> Result<(), SpanError> {
    let config = SpanBuilder::builder()
        .datetime_format("%d/%m/%YT%H_%M_%S")
        .date_format("%d/%m/%Y")
        .time_format("%H_%M_%S")
        .build();
    let datetime = DateTime::new(2023, 01, 01, &config)?.with_time(12, 00, 00)?;
    assert_eq!(datetime.render(), "01/01/2023T12_00_00");
    let time = Time::new(12, 00, 00, &config)?;
    assert_eq!(time.render(), "12_00_00");
    Ok(())
}

#[test]
fn builder_default_equals_builder() {
    let a = SpanBuilder::default().build();
    let b = SpanBuilder::builder().build();
    assert_eq!(a.date_default(), b.date_default());
    assert_eq!(a.time_default(), b.time_default());
    assert_eq!(a.datetime_default(), b.datetime_default());
}

#[test]
fn builder_datetime_default_is_derived_lazily() {
    let config = SpanBuilder::builder()
        .date_format("%d/%m/%Y")
        .time_format("%H_%M_%S")
        .build();
    assert_eq!(config.datetime_default(), "%d/%m/%Y %H_%M_%S".to_string());
    let plain = SpanBuilder::builder().build();
    assert_eq!(plain.datetime_default(), "%Y-%m-%d %H:%M:%S".to_string());
}

#[test]
fn pattern_literal_percent_and_unknown_tokens() -> Result<(), SpanError> {
    let date = Date::new("2023-10-09%x", "%Y-%m-%d%x")?;
    assert_eq!(date.render(), "2023-10-09%x".to_string());
    Ok(())
}

#[test]
fn range_edges() -> Result<(), SpanError> {
    let last = Date::new("9999-12-31", "%Y-%m-%d")?;
    assert!(last.next(DateUnit::Day).is_err());
    assert!(last.update(DateUnit::Day, -1).is_ok());
    let first = Date::new("0000-01-01", "%Y-%m-%d")?;
    assert!(first.update(DateUnit::Day, -1).is_err());
    assert_eq!(first.next(DateUnit::Day)?.render(), "0000-01-02".to_string());
    Ok(())
}

#[test]
fn format_method_changes_only_presentation() -> Result<(), SpanError> {
    let date = Date::new("2023-10-09", "%Y-%m-%d")?;
    let refashioned = date.clone().format("%d/%m/%Y");
    assert_eq!(refashioned.render(), "09/10/2023".to_string());
    assert_eq!(refashioned, date);
    let datetime = DateTime::new(2023, 10, 9, &cfg())?.format(None, &cfg());
    assert_eq!(datetime.render(), "2023-10-09 00:00:00".to_string());
    Ok(())
}
