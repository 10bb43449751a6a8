use natural_date_parser::date_parser;
use natural_date_parser::Timestamp;

fn local(year: i32, month: u32, day: u32, hour: u32, minute: u32, second: u32) -> Timestamp {
    Timestamp::from_local(year, month, day, hour, minute, second).unwrap()
}

#[test]
fn test_in_15_minutes() {
    assert_eq!(
        date_parser::from_string_with_reference("in 15 minutes", local(2025, 9, 7, 21, 0, 0)).unwrap(),
        local(2025, 9, 7, 21, 15, 0)
    )
}

#[test]
fn test_in_1_hour() {
    assert_eq!(
        date_parser::from_string_with_reference("in 1 hour", local(2025, 9, 7, 21, 0, 0)).unwrap(),
        local(2025, 9, 7, 22, 0, 0)
    )
}

#[test]
fn test_in_3_days() {
    assert_eq!(
        date_parser::from_string_with_reference("in 3 days", local(2025, 9, 7, 21, 0, 0)).unwrap(),
        local(2025, 9, 10, 21, 0, 0)
    )
}

#[test]
fn test_in_5_weeks() {
    assert_eq!(
        date_parser::from_string_with_reference("in 5 weeks", local(2025, 9, 7, 21, 0, 0)).unwrap(),
        local(2025, 10, 12, 21, 0, 0)
    )
}

#[test]
fn test_in_2_months() {
    assert_eq!(
        date_parser::from_string_with_reference("in 2 months", local(2025, 9, 7, 21, 0, 0)).unwrap(),
        local(2025, 11, 7, 21, 0, 0)
    )
}

#[test]
fn test_in_12_years() {
    assert_eq!(
        date_parser::from_string_with_reference("in 12 years", local(2025, 9, 7, 21, 0, 0)).unwrap(),
        local(2037, 9, 7, 21, 0, 0)
    )
}
