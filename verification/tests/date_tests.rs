use span::builder::FormatConfig;
use span::builder::SpanBuilder;
use span::date::Date;
use span::date::DateUnit;
use span::datetime::DateTime;
use span::error::DateError;
use span::error::SpanError;

fn cfg() -> FormatConfig {
    SpanBuilder::builder().build()
}

#[test]
fn date_add_overflow() -> Result<(), SpanError> {
    let date = Date::build("2023-10-09", &cfg())?;
    let new_date = date.update(DateUnit::Day, i32::MAX);
    assert_eq!(
        new_date,
        Err(SpanError::Date(
            Box::new(SpanError::InvalidUpdate(
                "Cannot Add/Remove 2147483647 Day to/from 2023-10-09".to_string()
            )),
            DateError
        ))
    );
    Ok(())
}

#[test]
fn date_add_one_year() -> Result<(), SpanError> {
    let date = Date::build("2023-10-09", &cfg())?;
    let new_date = date.update(DateUnit::Year, 1)?;
    assert_eq!(new_date.render(), "2024-10-09".to_string());
    Ok(())
}

#[test]
fn date_remove_one_year() -> Result<(), SpanError> {
    let date = Date::build("2023-10-09", &cfg())?;
    let new_date = date.update(DateUnit::Year, -1)?;
    assert_eq!(new_date.render(), "2022-10-09".to_string());
    Ok(())
}

#[test]
fn date_add_one_month() -> Result<(), SpanError> {
    let date = Date::build("2023-10-09", &cfg())?;
    let new_date = date.update(DateUnit::Month, 1)?;
    assert_eq!(new_date.render(), "2023-11-09".to_string());
    Ok(())
}

#[test]
fn date_remove_one_month() -> Result<(), SpanError> {
    let date = Date::build("2023-10-09", &cfg())?;
    let new_date = date.update(DateUnit::Month, -1)?;
    assert_eq!(new_date.render(), "2023-09-09".to_string());
    Ok(())
}

#[test]
fn date_add_one_day() -> Result<(), SpanError> {
    let date = Date::build("2023-10-09", &cfg())?;
    let new_date = date.update(DateUnit::Day, 1)?;
    assert_eq!(new_date.render(), "2023-10-10".to_string());
    Ok(())
}

#[test]
fn date_remove_one_day() -> Result<(), SpanError> {
    let date = Date::build("2023-10-09", &cfg())?;
    let new_date = date.update(DateUnit::Day, -1)?;
    assert_eq!(new_date.render(), "2023-10-08".to_string());
    Ok(())
}

#[test]
fn next_month_january_to_february() -> Result<(), SpanError> {
    let mut date = Date::build("2023-01-31", &cfg())?;
    date = date.next(DateUnit::Month)?;
    assert_eq!(date.render(), "2023-02-28".to_string());
    Ok(())
}

#[test]
fn next_month_february_to_march() -> Result<(), SpanError> {
    let mut date = Date::build("2023-02-02", &cfg())?;
    date = date.next(DateUnit::Month)?;
    assert_eq!(date.render(), "2023-03-02".to_string());
    Ok(())
}

#[test]
fn next_month() -> Result<(), SpanError> {
    let mut date = Date::build("2023-10-09", &cfg())?;
    date = date.next(DateUnit::Month)?;
    assert_eq!(date.render(), "2023-11-09".to_string());
    Ok(())
}

#[test]
fn next_year() -> Result<(), SpanError> {
    let mut date = Date::build("2023-10-09", &cfg())?;
    date = date.next(DateUnit::Year)?;
    assert_eq!(date.render(), "2024-10-09".to_string());
    Ok(())
}

#[test]
fn next_month_on_december() -> Result<(), SpanError> {
    let mut date = Date::build("2023-12-09", &cfg())?;
    date = date.next(DateUnit::Month)?;
    assert_eq!(date.render(), "2024-01-09".to_string());
    Ok(())
}

#[test]
fn next_day_28_february_leap_year() -> Result<(), SpanError> {
    let mut date = Date::build("2024-02-28", &cfg())?;
    date = date.next(DateUnit::Day)?;
    assert_eq!(date.render(), "2024-02-29".to_string());
    Ok(())
}

#[test]
fn next_day_28_february_non_leap_year() -> Result<(), SpanError> {
    let mut date = Date::build("2023-02-28", &cfg())?;
    date = date.next(DateUnit::Day)?;
    assert_eq!(date.render(), "2023-03-01".to_string());
    Ok(())
}

#[test]
fn matches_every_unit_in_date() -> Result<(), SpanError> {
    let date = Date::build("2023-10-09", &cfg())?;
    assert!(date.matches(DateUnit::Year, 2023));
    assert!(date.matches(DateUnit::Month, 10));
    assert!(date.matches(DateUnit::Day, 9));
    Ok(())
}

#[test]
fn is_in_future_yesterday() -> Result<(), SpanError> {
    let mut date = Date::today(&cfg())?;
    date = date.update(DateUnit::Day, -1)?;
    assert!(!date.is_in_future()?);
    Ok(())
}

#[test]
fn is_in_future_tomorrow() -> Result<(), SpanError> {
    let mut date = Date::today(&cfg())?;
    date = date.update(DateUnit::Day, 1)?;
    assert!(date.is_in_future()?);
    Ok(())
}

#[test]
fn is_in_future_now() -> Result<(), SpanError> {
    let date = Date::today(&cfg())?;
    assert!(!date.is_in_future()?);
    Ok(())
}

#[test]
fn elapsed_one_year() -> Result<(), SpanError> {
    let date = Date::build("2023-10-09", &cfg())?;
    let lhs = Date::build("2022-10-09", &cfg())?;
    assert_eq!(
        date.elapsed(&lhs),
        chrono::TimeDelta::try_days(365).unwrap().num_seconds()
    );
    Ok(())
}

#[test]
fn elapsed_one_second() -> Result<(), SpanError> {
    let date = Date::build("2023-10-09", &cfg())?;
    let lhs = Date::build("2023-10-02", &cfg())?;
    assert_eq!(
        date.elapsed(&lhs),
        chrono::TimeDelta::try_weeks(1).unwrap().num_seconds()
    );
    Ok(())
}

#[test]
fn elapsed_multiple_units() -> Result<(), SpanError> {
    let date = Date::build("2024-02-12", &cfg())?;
    let lhs = Date::build("2023-02-08", &cfg())?;
    assert_eq!(
        date.elapsed(&lhs),
        chrono::TimeDelta::try_weeks(52)
            .unwrap()
            .checked_add(&chrono::TimeDelta::try_days(5).unwrap())
            .unwrap()
            .num_seconds()
    );
    Ok(())
}

#[test]
fn unit_elapsed() -> Result<(), SpanError> {
    let date = Date::build("2023-10-09", &cfg())?;
    let rhs = Date::build("2020-02-08", &cfg())?;
    let years_in_between = date.unit_elapsed(&rhs, DateUnit::Year)?;
    let months_in_between = date.unit_elapsed(&rhs, DateUnit::Month)?;
    let days_in_between = date.unit_elapsed(&rhs, DateUnit::Day)?;
    assert_eq!(years_in_between, 3);
    assert_eq!(months_in_between, years_in_between * 12 + 8);
    assert_eq!(days_in_between, 1339);
    Ok(())
}

#[test]
fn unit_elapsed_leap_year_days() -> Result<(), SpanError> {
    let date = Date::build("2024-03-12", &cfg())?;
    let rhs = Date::build("2024-01-12", &cfg())?;
    let years_in_between = date.unit_elapsed(&rhs, DateUnit::Year)?;
    let months_in_between = date.unit_elapsed(&rhs, DateUnit::Month)?;
    let days_in_between = date.unit_elapsed(&rhs, DateUnit::Day)?;
    assert_eq!(years_in_between, 0);
    assert_eq!(months_in_between, years_in_between * 12 + 2);
    assert_eq!(days_in_between, 60);
    Ok(())
}

#[test]
fn unit_elapsed_non_leap_year_days() -> Result<(), SpanError> {
    let date = Date::build("2023-03-12", &cfg())?;
    let rhs = Date::build("2023-01-12", &cfg())?;
    let years_in_between = date.unit_elapsed(&rhs, DateUnit::Year)?;
    let months_in_between = date.unit_elapsed(&rhs, DateUnit::Month)?;
    let days_in_between = date.unit_elapsed(&rhs, DateUnit::Day)?;
    assert_eq!(years_in_between, 0);
    assert_eq!(months_in_between, years_in_between * 12 + 2);
    assert_eq!(days_in_between, 59);
    Ok(())
}

#[test]
fn datetime_into_date() -> Result<(), SpanError> {
    let datetime = DateTime::build("2023-10-09 12:00:00", &cfg())?;
    let date = datetime.to_date(&cfg());
    assert_eq!(date.render(), "2023-10-09".to_string());
    Ok(())
}
