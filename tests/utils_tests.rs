use chrono::{FixedOffset, NaiveDate, TimeZone};
use natural_date_parser::date_parser;
use natural_date_parser::{ParseDateError, Rule, Timestamp, Weekday};

fn to_chrono(t: &Timestamp) -> chrono::DateTime<FixedOffset> {
    let naive = NaiveDate::from_ymd_opt(t.year, t.month, t.day)
        .unwrap()
        .and_hms_nano_opt(t.hour, t.minute, t.second, t.nanosecond)
        .unwrap();
    FixedOffset::east_opt(t.offset).unwrap().from_local_datetime(&naive).unwrap()
}

#[test]
fn test_change_time_valid() {
    let new_time = date_parser::change_time(Timestamp::now(), 16, 45);
    assert!(new_time.is_ok());
    let new_datetime = new_time.unwrap();
    assert_eq!(new_datetime.hour, 16);
    assert_eq!(new_datetime.minute, 45);
}

#[test]
fn test_change_time_invalid_hour() {
    let new_time = date_parser::change_time(Timestamp::now(), 25, 30);
    assert!(new_time.is_err());
    if let Err(ParseDateError::ParseError(msg)) = new_time {
        assert_eq!(msg, "Invalid date or time components");
    } else {
        panic!("Expected an error with invalid time");
    }
}

#[test]
fn test_change_time_invalid_minute() {
    let new_time = date_parser::change_time(Timestamp::now(), 14, 60);
    assert!(new_time.is_err());
    if let Err(ParseDateError::ParseError(msg)) = new_time {
        assert_eq!(msg, "Invalid date or time components");
    } else {
        panic!("Expected an error with invalid time");
    }
}

#[test]
fn test_adjust_to_next_weekday() {
    // Monday
    let datetime = Timestamp::from_local(2024, 11, 11, 12, 0, 0).unwrap();

    let adjusted_date = date_parser::shift_to_weekday(datetime, Weekday::Fri, Rule::next);
    assert!(adjusted_date.is_ok());
    assert_eq!(adjusted_date.as_ref().unwrap().weekday(), Weekday::Fri);
    assert_eq!(adjusted_date.unwrap().year, datetime.year);

    let adjusted_date = date_parser::shift_to_weekday(datetime, Weekday::Mon, Rule::next);
    assert!(adjusted_date.is_ok());
    assert_eq!(adjusted_date.as_ref().unwrap().weekday(), Weekday::Mon);
    assert_eq!(adjusted_date.unwrap().year, datetime.year);
}

#[test]
fn test_adjust_to_last_weekday() {
    // A Wednesday: "last" and the same weekday is one week back.
    let now = Timestamp::from_local(2024, 11, 13, 8, 30, 0).unwrap();
    let weekday = now.weekday();

    let adjusted_date = date_parser::shift_to_weekday(now, weekday, Rule::last);
    assert!(adjusted_date.is_ok());
    assert_eq!(adjusted_date.as_ref().unwrap().weekday(), weekday);
    assert_eq!(to_chrono(&now) - to_chrono(&adjusted_date.unwrap()), chrono::Duration::days(7));
}

#[test]
fn test_adjust_to_this_weekday() {
    let now = Timestamp::now();
    let weekday = now.weekday();

    let adjusted_date = date_parser::shift_to_weekday(now, weekday, Rule::this);
    assert!(adjusted_date.is_ok());
    assert_eq!(adjusted_date.unwrap(), now);
}
