use trend::date::{Date, DateError};

#[test]
fn cmp() {
    let format = "%a, %d %b %Y %H:%M:%S %z";
    let date1 = Date::parse_from_str("Fri, 21 Jun 2024 02:22:32 +0000", format).unwrap();
    let date2 = Date::parse_from_str("Sat, 22 Jun 2024 02:22:32 +0000", format).unwrap();
    assert!(date1 < date2);
}

#[test]
fn to_string() {
    let s = "2021-01-01:00:00:00";
    let date = Date::from_str(s).unwrap();
    assert_eq!(date.to_string(), s);
}

#[test]
fn parse_with_a_format_of_the_caller() {
    let date = Date::parse_from_str("2021-03-04", "%Y-%m-%d").unwrap();
    assert_eq!(date.to_string(), "2021-03-04:00:00:00");
}

#[test]
fn parse_drops_time_and_offset() {
    let format = "%a, %d %b %Y %H:%M:%S %z";
    let date = Date::parse_from_str("Fri, 21 Jun 2024 23:59:59 +0900", format).unwrap();
    assert_eq!(date.to_string(), "2024-06-21:00:00:00");
}

#[test]
fn parse_error_holds_the_text() {
    match Date::parse_from_str("not a date", "%Y-%m-%d") {
        Err(DateError::ParseError(text)) => assert_eq!(text, "not a date"),
        Ok(_) => panic!("a date came out of no date"),
    }
}

#[test]
fn from_str_refuses_another_format() {
    assert!(matches!(Date::from_str("2021-01-01"), Err(DateError::ParseError(_))));
    assert!(matches!(Date::from_str(""), Err(DateError::ParseError(_))));
}

#[test]
fn parse_refuses_a_day_that_does_not_exist() {
    assert!(Date::parse_from_str("2023-02-29", "%Y-%m-%d").is_err());
    assert!(Date::parse_from_str("2024-02-29", "%Y-%m-%d").is_ok());
}

#[test]
fn parse_refuses_a_weekday_that_does_not_match() {
    let format = "%a, %d %b %Y %H:%M:%S %z";
    assert!(Date::parse_from_str("Sat, 21 Jun 2024 02:22:32 +0000", format).is_err());
}

#[test]
fn order_is_the_order_of_time() {
    let parse = |s: &str| Date::parse_from_str(s, "%Y-%m-%d").unwrap();
    let a = parse("2023-12-31");
    let b = parse("2024-01-01");
    let c = parse("2024-03-01");
    assert!(a < b && b < c && a < c);
    assert!(a <= b && b <= b && !(c <= b));
    assert!(b >= a && c > b && !(a > b) && !(b > b) && !(b < b));
    assert_eq!(a.partial_cmp(&b), Some(std::cmp::Ordering::Less));
    assert_eq!(b.partial_cmp(&b), Some(std::cmp::Ordering::Equal));
    assert_eq!(c.cmp(&b), std::cmp::Ordering::Greater);
    assert_eq!(a.max(c), c);
    assert_eq!(b, parse("2024-01-01"));
}

#[test]
fn leap_day_round_trips() {
    let date = Date::from_str("2024-02-29:00:00:00").unwrap();
    assert_eq!(date.to_string(), "2024-02-29:00:00:00");
    let last = Date::from_str("2024-12-31:00:00:00").unwrap();
    assert_eq!(last.to_string(), "2024-12-31:00:00:00");
}

#[test]
fn now_is_a_date_that_reads_back() {
    let today = Date::now();
    let text = today.to_string();
    assert_eq!(Date::from_str(&text).unwrap(), today);
}

#[test]
fn first_and_last_day_round_trip() {
    for text in [
        "-262143-01-01",
        "+262142-12-31",
        "0000-01-01",
        "0001-01-01",
        "0999-12-31",
        "9999-12-31",
        "-0001-12-31",
        "-9999-01-01",
        "-10000-01-01",
        "+10000-01-01",
    ] {
        let date = Date::parse_from_str(text, "%Y-%m-%d").unwrap();
        assert_eq!(date.to_string(), format!("{text}:00:00:00"));
        assert_eq!(Date::from_str(&date.to_string()).unwrap(), date);
    }
    assert!(Date::parse_from_str("-262144-12-31", "%Y-%m-%d").is_err());
    assert!(Date::parse_from_str("+262143-01-01", "%Y-%m-%d").is_err());
}

#[test]
fn years_before_the_common_era_come_first() {
    let parse = |s: &str| Date::parse_from_str(s, "%Y-%m-%d").unwrap();
    assert!(parse("-0001-12-31") < parse("0000-01-01"));
    assert!(parse("-0001-12-31") <= parse("0000-01-01"));
    assert!(parse("0000-12-31") < parse("0001-01-01"));
    assert!(!(parse("0001-01-01") <= parse("0000-12-31")));
}
