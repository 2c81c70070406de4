use zhihu_daily::date::{day_string, leap_year, month_days, parse_yyyymmdd, CalDate, Date};

#[test]
fn parses_a_plain_date() {
    let d = parse_yyyymmdd("20230101").expect("valid date");
    assert_eq!(d, Date { year: 2023, month: 1, day: 1 });
}

#[test]
fn parses_the_last_day_of_a_month() {
    let d = parse_yyyymmdd("20231231").expect("valid date");
    assert_eq!(d, Date { year: 2023, month: 12, day: 31 });
}

#[test]
fn rejects_short_and_long_strings() {
    assert!(parse_yyyymmdd("2023010").is_none());
    assert!(parse_yyyymmdd("202301011").is_none());
    assert!(parse_yyyymmdd("").is_none());
}

#[test]
fn rejects_non_digits() {
    assert!(parse_yyyymmdd("2023a101").is_none());
    assert!(parse_yyyymmdd("2023-1-1").is_none());
    assert!(parse_yyyymmdd("date0101").is_none());
}

#[test]
fn rejects_out_of_range_months_and_days() {
    assert!(parse_yyyymmdd("20230001").is_none());
    assert!(parse_yyyymmdd("20231301").is_none());
    assert!(parse_yyyymmdd("20230100").is_none());
    assert!(parse_yyyymmdd("20230132").is_none());
    assert!(parse_yyyymmdd("20230431").is_none());
}

#[test]
fn knows_february_and_leap_years() {
    assert!(parse_yyyymmdd("20240229").is_some());
    assert!(parse_yyyymmdd("20230229").is_none());
    assert!(parse_yyyymmdd("20000229").is_some());
    assert!(parse_yyyymmdd("19000229").is_none());
    assert!(parse_yyyymmdd("20230230").is_none());
}

#[test]
fn leap_year_rule() {
    assert!(leap_year(2024));
    assert!(!leap_year(2023));
    assert!(leap_year(2000));
    assert!(!leap_year(1900));
}

#[test]
fn month_lengths() {
    assert_eq!(month_days(2023, 1), 31);
    assert_eq!(month_days(2023, 2), 28);
    assert_eq!(month_days(2024, 2), 29);
    assert_eq!(month_days(2023, 4), 30);
    assert_eq!(month_days(2023, 6), 30);
    assert_eq!(month_days(2023, 9), 30);
    assert_eq!(month_days(2023, 11), 30);
    assert_eq!(month_days(2023, 12), 31);
}

#[test]
fn month_names_follow_the_table() {
    assert_eq!(CalDate::month_name(2), "二");
    assert_eq!(CalDate::month_name(3), "三");
    assert_eq!(CalDate::month_name(4), "四");
    assert_eq!(CalDate::month_name(5), "五");
    assert_eq!(CalDate::month_name(6), "六");
    assert_eq!(CalDate::month_name(7), "七");
    assert_eq!(CalDate::month_name(8), "八");
    assert_eq!(CalDate::month_name(9), "九");
    assert_eq!(CalDate::month_name(10), "十");
    assert_eq!(CalDate::month_name(11), "十一");
    assert_eq!(CalDate::month_name(12), "十二");
}

#[test]
fn month_one_and_out_of_range_share_the_first_entry() {
    assert_eq!(CalDate::month_name(1), "一");
    assert_eq!(CalDate::month_name(0), "一");
    assert_eq!(CalDate::month_name(13), "一");
    assert_eq!(CalDate::month_name(99), "一");
}

#[test]
fn day_strings_have_no_leading_zero() {
    assert_eq!(day_string(1), "1");
    assert_eq!(day_string(7), "7");
    assert_eq!(day_string(10), "10");
    assert_eq!(day_string(31), "31");
}

#[test]
fn caldate_derivation_is_exact() {
    let d = parse_yyyymmdd("20230705").expect("valid date");
    let cal = CalDate::new(&d);
    assert_eq!(cal.day, "5");
    assert_eq!(cal.month, "七月");

    let d = parse_yyyymmdd("20240110").expect("valid date");
    let cal = CalDate::new(&d);
    assert_eq!(cal.day, "10");
    assert_eq!(cal.month, "一月");
}
