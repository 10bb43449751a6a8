use chrono::{Duration, FixedOffset, Local, NaiveDate, TimeZone};
use natural_date_parser::date_parser::{
    process_is_pm, process_relative_date, process_relative_term, process_specific_day,
    process_specific_time, process_weekday,
};
use natural_date_parser::{DateParser, Pair, ParseDateError, Rule, Timestamp, Weekday};

fn assert_weekday_result(result: Result<Weekday, ParseDateError>, expected: Weekday) {
    match result {
        Ok(weekday) => assert_eq!(weekday, expected),
        Err(e) => panic!("Expected Ok but got error: {:?}", e),
    }
}

fn assert_specific_day_result(result: Result<Timestamp, ParseDateError>, expected_weekday: Weekday) {
    match result {
        Ok(datetime) => assert_eq!(datetime.weekday(), expected_weekday),
        Err(e) => panic!("Expected Ok but got error: {:?}", e),
    }
}

fn first_pair(rule: Rule, input: &str) -> Pair {
    DateParser::parse(rule, input).unwrap().remove(0)
}

/// The same instant as a chrono value, to compute expectations independently.
fn to_chrono(t: &Timestamp) -> chrono::DateTime<FixedOffset> {
    let naive = NaiveDate::from_ymd_opt(t.year, t.month, t.day)
        .unwrap()
        .and_hms_nano_opt(t.hour, t.minute, t.second, t.nanosecond)
        .unwrap();
    FixedOffset::east_opt(t.offset).unwrap().from_local_datetime(&naive).unwrap()
}

#[test]
fn test_process_am_pm_for_pm() {
    let pair = first_pair(Rule::am_pm, "PM");
    assert_eq!(process_is_pm(&pair), Some(true));
}

#[test]
fn test_process_am_pm_for_am() {
    let pair = first_pair(Rule::am_pm, "AM");
    assert_eq!(process_is_pm(&pair), Some(false));
}

#[test]
fn test_process_am_pm_for_invalid_input() {
    let pair = first_pair(Rule::date_expression, "today");
    assert_eq!(process_is_pm(&pair), None);
}

#[test]
fn test_process_weekday_valid() {
    assert_weekday_result(process_weekday(Rule::monday), Weekday::Mon);
    assert_weekday_result(process_weekday(Rule::tuesday), Weekday::Tue);
    assert_weekday_result(process_weekday(Rule::wednesday), Weekday::Wed);
    assert_weekday_result(process_weekday(Rule::thursday), Weekday::Thu);
    assert_weekday_result(process_weekday(Rule::friday), Weekday::Fri);
    assert_weekday_result(process_weekday(Rule::saturday), Weekday::Sat);
    assert_weekday_result(process_weekday(Rule::sunday), Weekday::Sun);
}

#[test]
fn test_process_weekday_invalid() {
    let result = process_weekday(Rule::EOI);
    assert!(result.is_err());
    if let Err(ParseDateError::ParseError(msg)) = result {
        assert_ne!(msg, "");
    } else {
        panic!("Expected a message for an error for invalid weekday");
    }
}

#[test]
fn test_process_specific_day_valid() {
    let datetime = Timestamp::now();
    assert_specific_day_result(process_specific_day(Rule::monday, datetime), Weekday::Mon);
    assert_specific_day_result(process_specific_day(Rule::tuesday, datetime), Weekday::Tue);
    assert_specific_day_result(process_specific_day(Rule::wednesday, datetime), Weekday::Wed);
    assert_specific_day_result(process_specific_day(Rule::thursday, datetime), Weekday::Thu);
    assert_specific_day_result(process_specific_day(Rule::friday, datetime), Weekday::Fri);
    assert_specific_day_result(process_specific_day(Rule::saturday, datetime), Weekday::Sat);
    assert_specific_day_result(process_specific_day(Rule::sunday, datetime), Weekday::Sun);
}

#[test]
fn test_process_specific_day_invalid() {
    let result = process_specific_day(Rule::EOI, Timestamp::now());
    assert!(result.is_err());
    if let Err(ParseDateError::ParseError(msg)) = result {
        assert_ne!(msg, "");
    } else {
        panic!("Expected an error for invalid weekday");
    }
}

#[test]
fn test_process_specific_day_with_future_weekday() {
    let result = process_specific_day(Rule::monday, Timestamp::now());
    assert_specific_day_result(result, Weekday::Mon);
}

fn get_test_datetime() -> Timestamp {
    Timestamp::from_local(2024, 11, 11, 12, 0, 0).unwrap()
}

#[test]
fn test_process_specific_time_am() {
    let pair = first_pair(Rule::specific_time, "9:45AM");
    let result = process_specific_time(&pair, get_test_datetime());
    assert!(result.is_ok());
    let modified_datetime = result.unwrap();
    assert_eq!(modified_datetime.hour, 9);
    assert_eq!(modified_datetime.minute, 45);
}

#[test]
fn test_process_specific_time_pm() {
    let pair = first_pair(Rule::specific_time, "5:30PM");
    let result = process_specific_time(&pair, get_test_datetime());
    assert!(result.is_ok());
    let modified_datetime = result.unwrap();
    assert_eq!(modified_datetime.hour, 17);
    assert_eq!(modified_datetime.minute, 30);
}

#[test]
fn test_process_specific_time_midnight() {
    let pair = first_pair(Rule::specific_time, "12:00AM");
    let result = process_specific_time(&pair, get_test_datetime());
    assert!(result.is_ok());
    let modified_datetime = result.unwrap();
    assert_eq!(modified_datetime.hour, 0);
    assert_eq!(modified_datetime.minute, 0);
}

#[test]
fn test_process_specific_time_noon() {
    let pair = first_pair(Rule::specific_time, "12:00PM");
    let result = process_specific_time(&pair, get_test_datetime());
    assert!(result.is_ok());
    let modified_datetime = result.unwrap();
    assert_eq!(modified_datetime.hour, 12);
    assert_eq!(modified_datetime.minute, 0);
}

#[test]
fn test_process_specific_time_invalid() {
    let pair = first_pair(Rule::specific_time, "25:00PM");
    let result = process_specific_time(&pair, get_test_datetime());
    assert!(result.is_err());
    if let Err(ParseDateError::ParseError(msg)) = result {
        assert!(msg.contains("Invalid hour"));
    } else {
        panic!("Expected error for invalid time");
    }
}

#[test]
fn test_process_specific_time_same_time() {
    let pair = first_pair(Rule::specific_time, "10:30AM");
    let result = process_specific_time(&pair, get_test_datetime());
    assert!(result.is_ok());
    let modified_datetime = result.unwrap();
    assert_eq!(modified_datetime.hour, 10);
    assert_eq!(modified_datetime.minute, 30);
}

fn test_relative_term_rule(input: &str, days: i64) {
    let reference = Timestamp::now();
    let expected = (to_chrono(&reference) + Duration::days(days)).with_timezone(&Local);
    let pair = first_pair(Rule::relative_term, input);
    let result = process_relative_term(&pair, reference);
    assert!(result.is_ok());
    let result = result.unwrap();
    assert_eq!(to_chrono(&result), expected);
    assert_eq!(result.year, chrono::Datelike::year(&expected));
    assert_eq!(result.month, chrono::Datelike::month(&expected));
    assert_eq!(result.day, chrono::Datelike::day(&expected));
}

#[test]
fn test_process_relative_term_tomorrow() {
    test_relative_term_rule("tomorrow", 1);
}

#[test]
fn test_process_relative_term_today() {
    test_relative_term_rule("today", 0);
}

#[test]
fn test_process_relative_term_yesterday() {
    test_relative_term_rule("yesterday", -1);
}

#[test]
fn test_process_relative_date_next_monday() {
    // A Wednesday: "next Monday" is five days later.
    let reference = Timestamp::from_local(2024, 11, 13, 9, 0, 0).unwrap();
    let today = reference.weekday().num_days_from_sunday() as i64;
    let today_from_monday = (today + 6) % 7;
    let days_offset = if today_from_monday <= 0 { -today_from_monday } else { 7 - today_from_monday };

    let pair = first_pair(Rule::relative_date, "next Monday");
    let result = process_relative_date(&pair, reference);
    println!("res {:#?}", result);
    assert!(result.is_ok());

    let expected_date = to_chrono(&reference) + Duration::days(days_offset);
    assert_eq!(to_chrono(&result.unwrap()).date_naive(), expected_date.date_naive());
}
