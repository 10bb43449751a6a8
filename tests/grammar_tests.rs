use natural_date_parser::{DateParser, ParseDateError, Rule};

fn parse_rule(rule: Rule, input: &str) -> Result<(), String> {
    match DateParser::parse(rule, input) {
        Ok(pairs) => {
            if pairs.is_empty() {
                Err(format!("No pair found for rule {:?}", rule))
            } else {
                Ok(())
            }
        }
        Err(ParseDateError::ParseError(e)) => Err(format!(
            "Failed to parse input `{}` with rule {:?}: {}",
            input, rule, e
        )),
    }
}

#[test]
fn test_date_expression() -> Result<(), String> {
    let expressions = [
        "next Monday at 10:30AM",
        "tomorrow",
        "today",
        "yesterday",
        "next Wednesday",
        "Saturday",
        "in 2 weeks",
    ];
    for expr in expressions {
        parse_rule(Rule::date_expression, expr)?;
    }
    Ok(())
}

#[test]
fn test_specific_day() -> Result<(), String> {
    let days = [
        "Monday",
        "monday",
        "Tuesday",
        "tuesday",
        "Wednesday",
        "wednesday",
        "Thursday",
        "thursday",
        "Friday",
        "friday",
        "Saturday",
        "saturday",
        "Sunday",
        "sunday",
    ];
    for day in days {
        parse_rule(Rule::specific_day, day)?;
    }
    Ok(())
}

#[test]
fn test_specific_time() -> Result<(), String> {
    let times = ["10:30AM", "10:30am", "01:45PM", "1:45pm"];
    for time in times {
        parse_rule(Rule::specific_time, time)?;
    }
    Ok(())
}

#[test]
fn test_relative_term() -> Result<(), String> {
    let terms = ["Tomorrow", "tomorrow", "Today", "today", "Yesterday", "yesterday"];
    for term in terms {
        parse_rule(Rule::relative_term, term)?;
    }
    Ok(())
}

#[test]
fn test_relative_date() -> Result<(), String> {
    let dates = ["Next Monday", "next Tuesday", "Last Friday", "last saturday"];
    for date in dates {
        parse_rule(Rule::relative_date, date)?;
    }
    Ok(())
}

#[test]
fn test_relative_day_and_specific_time() -> Result<(), String> {
    let expressions = ["next Monday at 10:30AM", "yesterday at 5:15pm"];
    for expr in expressions {
        parse_rule(Rule::relative_day_and_specific_time, expr)?;
    }
    Ok(())
}

#[test]
fn test_future_time() -> Result<(), String> {
    let times = ["in 2 days", "in 3 weeks", "in 1 month", "in 5 years"];
    for time in times {
        parse_rule(Rule::future_time, time)?;
    }
    Ok(())
}

#[test]
fn test_time_unit() -> Result<(), String> {
    let units = ["day", "days", "week", "weeks", "month", "months", "year", "years"];
    for unit in units {
        parse_rule(Rule::time_unit, unit)?;
    }
    Ok(())
}

#[test]
fn test_next_or_last() -> Result<(), String> {
    let words = ["next", "last", "this", "Next", "Last", "This"];
    for word in words {
        parse_rule(Rule::next_or_last, word)?;
    }
    Ok(())
}

#[test]
fn test_am_pm() -> Result<(), String> {
    let am_pm_cases = ["AM", "am", "PM", "pm"];
    for case in am_pm_cases {
        parse_rule(Rule::am_pm, case)?;
    }
    Ok(())
}

#[test]
fn test_specific_day_and_time() -> Result<(), String> {
    let valid_cases = vec!["Monday at 10:00 AM", "Wednesday at 5:30 PM", "Friday at 12:45 PM"];
    for case in &valid_cases {
        parse_rule(Rule::specific_day_and_time, case)
            .map_err(|e| format!("Expected specific_day_and_time to parse '{}': {}", case, e))?;
    }

    let invalid_cases = vec![
        "Monday 10:00 AM",
        "Sunday at 5 PM",
        "at 10:00 AM",
        "Thursday at five PM",
        "Holiday at 10:00 AM",
    ];
    for case in &invalid_cases {
        let result = parse_rule(Rule::specific_day_and_time, case);
        assert!(result.is_err(), "Unexpectedly parsed invalid input: '{}'", case);
    }
    Ok(())
}

#[test]
fn test_hour() -> Result<(), String> {
    let valid_cases = vec!["0", "12", "23", "9", "01"];
    for case in &valid_cases {
        parse_rule(Rule::hour, case)
            .map_err(|e| format!("Failed to parse valid hour '{}': {}", case, e))?;
    }
    let invalid_cases = vec!["-1", "a3", "xx"];
    for case in &invalid_cases {
        assert!(parse_rule(Rule::hour, case).is_err(), "Parsed invalid hour '{}'", case);
    }
    Ok(())
}

#[test]
fn test_minute() -> Result<(), String> {
    let valid_cases = vec!["0", "59", "30", "09"];
    for case in &valid_cases {
        parse_rule(Rule::minute, case)
            .map_err(|e| format!("Failed to parse valid minute '{}': {}", case, e))?;
    }
    let invalid_cases = vec!["a9", "xx"];
    for case in &invalid_cases {
        assert!(parse_rule(Rule::minute, case).is_err(), "Parsed invalid minute '{}'", case);
    }
    Ok(())
}

#[test]
fn test_number() -> Result<(), String> {
    let valid_cases = vec!["1", "10", "999", "42"];
    for case in &valid_cases {
        parse_rule(Rule::number, case)
            .map_err(|e| format!("Failed to parse valid number '{}': {}", case, e))?;
    }
    let invalid_cases = vec!["", "xx"];
    for case in &invalid_cases {
        assert!(parse_rule(Rule::number, case).is_err(), "Parsed invalid number '{}'", case);
    }
    Ok(())
}

fn parse_words(rule: Rule, words: &[&str], what: &str) -> Result<(), String> {
    for word in words {
        parse_rule(rule, word).map_err(|e| format!("Failed to parse valid {} '{}': {}", what, word, e))?;
    }
    Ok(())
}

#[test]
fn test_monday() -> Result<(), String> {
    parse_words(Rule::monday, &["Monday", "monday"], "day")
}

#[test]
fn test_tuesday() -> Result<(), String> {
    parse_words(Rule::tuesday, &["Tuesday", "tuesday"], "day")
}

#[test]
fn test_wednesday() -> Result<(), String> {
    parse_words(Rule::wednesday, &["Wednesday", "wednesday"], "day")
}

#[test]
fn test_thursday() -> Result<(), String> {
    parse_words(Rule::thursday, &["Thursday", "thursday"], "day")
}

#[test]
fn test_friday() -> Result<(), String> {
    parse_words(Rule::friday, &["Friday", "friday"], "day")
}

#[test]
fn test_saturday() -> Result<(), String> {
    parse_words(Rule::saturday, &["Saturday", "saturday"], "day")
}

#[test]
fn test_sunday() -> Result<(), String> {
    parse_words(Rule::sunday, &["Sunday", "sunday"], "day")
}

#[test]
fn test_tommorow() -> Result<(), String> {
    parse_words(Rule::tomorrow, &["Tomorrow", "tomorrow"], "relative term")
}

#[test]
fn test_today() -> Result<(), String> {
    parse_words(Rule::today, &["Today", "today"], "relative term")
}

#[test]
fn test_yesterday() -> Result<(), String> {
    parse_words(Rule::yesterday, &["Yesterday", "yesterday"], "relative term")
}

#[test]
fn test_next() -> Result<(), String> {
    parse_words(Rule::next, &["Next", "next"], "relative direction term")
}

#[test]
fn test_this() -> Result<(), String> {
    parse_words(Rule::this, &["This", "this"], "relative direction term")
}

#[test]
fn test_last() -> Result<(), String> {
    parse_words(Rule::last, &["Last", "last"], "relative direction term")
}

#[test]
fn test_days() -> Result<(), String> {
    parse_words(Rule::day_s, &["day", "days"], "time unit")
}

#[test]
fn test_weeks() -> Result<(), String> {
    parse_words(Rule::week_s, &["week", "weeks"], "time unit")
}

#[test]
fn test_months() -> Result<(), String> {
    parse_words(Rule::month_s, &["month", "months"], "time unit")
}

#[test]
fn test_years() -> Result<(), String> {
    parse_words(Rule::year_s, &["year", "years"], "time unit")
}

#[test]
fn test_whitespace_empty_output() -> Result<(), String> {
    let result = DateParser::parse(Rule::WHITESPACE, " ")
        .map_err(|e| format!("Failed to parse ' ' as WHITESPACE: {:?}", e))?;
    assert!(result.is_empty(), "Expected an empty result, but got pairs: {:?}", result);
    Ok(())
}

#[test]
fn expression_span_excludes_surrounding_spaces() {
    let pair = DateParser::parse_expression("  next Monday \t").unwrap();
    assert_eq!(pair.rule, Rule::date_expression);
    assert_eq!(pair.start, 2);
    assert_eq!(pair.end, 13);
    assert_eq!(pair.inner.len(), 1);
    assert_eq!(pair.inner[0].rule, Rule::relative_date);
}

#[test]
fn grammar_rejects_partial_and_empty_inputs() {
    let rejected = [
        "",
        "   ",
        "in days",
        "some random text",
        "Sunday at 5 PM",
        "Monday 10:00 AM",
        "today x",
        "in 2 weekss",
        "10:60 AM",
        "nextt Monday",
    ];
    for text in rejected {
        match DateParser::parse_expression(text) {
            Err(ParseDateError::ParseError(m)) => {
                assert!(m.starts_with("Syntax error: "), "message for '{}': {}", text, m)
            }
            Ok(p) => panic!("accepted '{}': {:?}", text, p),
        }
    }
}

#[test]
fn grammar_is_case_insensitive_and_spacing_free() {
    for text in ["NEXT MONDAY AT 10:30am", "in5days", "Friday at 9 : 05 pm", "In 1 Week"] {
        assert!(DateParser::parse_expression(text).is_ok(), "rejected '{}'", text);
    }
}

#[test]
fn syntax_error_names_the_position() {
    match DateParser::parse_expression("today x") {
        Err(ParseDateError::ParseError(m)) => assert_eq!(m, "Syntax error: expected end of input at position 6"),
        Ok(_) => panic!("accepted trailing text"),
    }
}

#[test]
fn syntax_error_names_the_furthest_failure() {
    let cases = [
        ("next Mondy", "Syntax error: expected a weekday at position 5"),
        ("Sunday at 5 PM", "Syntax error: expected \":\" at position 12"),
        ("in 3 fortnights", "Syntax error: expected a time unit at position 5"),
        ("", "Syntax error: expected next, last or this at position 0"),
    ];
    for (text, expected) in cases {
        match DateParser::parse_expression(text) {
            Err(ParseDateError::ParseError(m)) => assert_eq!(m, expected),
            Ok(p) => panic!("accepted '{}': {:?}", text, p),
        }
    }
}

#[test]
fn tree_of_specific_time_holds_hour_minute_and_meridiem() {
    let pair = DateParser::parse(Rule::specific_time, "7:05 pm").unwrap().remove(0);
    let rules: Vec<Rule> = pair.inner.iter().map(|p| p.rule).collect();
    assert_eq!(rules, vec![Rule::hour, Rule::minute, Rule::am_pm]);
    assert_eq!(pair.inner[0].text, vec!['7']);
    assert_eq!(pair.inner[1].text, vec!['0', '5']);
    assert_eq!(pair.inner[2].inner[0].rule, Rule::pm);
}
