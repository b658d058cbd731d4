use journey2::datetime::Date;
use journey2::datetime::Timestamp;
use journey2::datetime::leap_year;
use journey2::datetime::month_length;
use journey2::datetime::parse_date;
use journey2::datetime::preprocess_datetime_for_url;
use journey2::datetime::preprocess_timezone_for_url;
use journey2::datetime::split_datetime;
use journey2::datetime::weekday_abbrev_of;
use journey2::datetime::weekday_of;
use journey2::strutil::parse_usize;

#[test]
fn parse_date_accepts_real_days() {
    assert_eq!(
        parse_date("2024-03-07"),
        Some(Date { year: 2024, month: 3, day: 7 })
    );
    assert_eq!(
        parse_date("2024-02-29"),
        Some(Date { year: 2024, month: 2, day: 29 })
    );
    assert_eq!(
        parse_date("1999-12-31"),
        Some(Date { year: 1999, month: 12, day: 31 })
    );
}

#[test]
fn parse_date_rejects_malformed_and_impossible() {
    assert_eq!(parse_date("2023-02-29"), None); // not a leap year
    assert_eq!(parse_date("2024-00-10"), None);
    assert_eq!(parse_date("2024-13-10"), None);
    assert_eq!(parse_date("2024-04-31"), None);
    assert_eq!(parse_date("0000-01-01"), None);
    assert_eq!(parse_date("2024/03/07"), None);
    assert_eq!(parse_date("2024-3-7"), None);
    assert_eq!(parse_date("24-03-07"), None);
    assert_eq!(parse_date(""), None);
    assert_eq!(parse_date("2024-03-07 "), None);
}

#[test]
fn leap_years_follow_the_gregorian_rule() {
    assert!(leap_year(2024));
    assert!(!leap_year(2023));
    assert!(leap_year(2000));
    assert!(!leap_year(1900));
    assert_eq!(month_length(2024, 2), 29);
    assert_eq!(month_length(1900, 2), 28);
    assert_eq!(month_length(2024, 4), 30);
    assert_eq!(month_length(2024, 1), 31);
}

#[test]
fn weekday_matches_chrono_across_sample_dates() {
    for (y, m, d) in [
        (2024u32, 3u32, 7u32),
        (2024, 1, 1),
        (2024, 2, 29),
        (2023, 12, 31),
        (2000, 2, 29),
        (1999, 1, 1),
        (1970, 1, 1),
        (2025, 7, 4),
        (2026, 10, 8),
    ] {
        let ours = weekday_abbrev_of(weekday_of(&Date { year: y, month: m, day: d }));
        let theirs = chrono::NaiveDate::from_ymd_opt(y as i32, m, d)
            .unwrap()
            .format("%a")
            .to_string();
        assert_eq!(ours, theirs, "weekday of {y}-{m}-{d}");
    }
}

#[test]
fn split_datetime_extracts_date_and_hour() {
    let (date, hour) = split_datetime("2023-08-21 13:45:00").unwrap();
    assert_eq!(date, "2023-08-21");
    assert_eq!(hour, 13);

    let (date, hour) = split_datetime("  2024-03-07   21:45  ").unwrap();
    assert_eq!(date, "2024-03-07");
    assert_eq!(hour, 21);

    let (date, hour) = split_datetime("2024-03-07 9").unwrap();
    assert_eq!(date, "2024-03-07");
    assert_eq!(hour, 9);

    assert!(split_datetime("2024-03-07").is_none());
    assert!(split_datetime("").is_none());
    assert!(split_datetime("2024-03-07 :45").is_none());
    assert!(split_datetime("2024-03-07 xx:45").is_none());
}

#[test]
fn preprocess_datetime_matches_split() {
    let (date, hour) = preprocess_datetime_for_url("2023-08-21 13:45:00");
    assert_eq!(date, "2023-08-21");
    assert_eq!(hour, 13);
}

#[test]
fn timezone_is_made_url_ready() {
    assert_eq!(preprocess_timezone_for_url("Europe/London"), "Europe%2FLondon");
    assert_eq!(
        preprocess_timezone_for_url("America/Argentina/Ushuaia"),
        "America%2FArgentina%2FUshuaia"
    );
    assert_eq!(preprocess_timezone_for_url("UTC"), "UTC");
}

#[test]
fn parse_usize_reads_plain_numbers() {
    assert_eq!(parse_usize("42"), Some(42));
    assert_eq!(parse_usize("+7"), Some(7));
    assert_eq!(parse_usize("0007"), Some(7));
    assert_eq!(parse_usize("0"), Some(0));
    assert_eq!(parse_usize(""), None);
    assert_eq!(parse_usize("+"), None);
    assert_eq!(parse_usize("-3"), None);
    assert_eq!(parse_usize("12a"), None);
    assert_eq!(parse_usize(" 12"), None);
    assert_eq!(parse_usize("99999999999999999999999999"), None);
}

#[test]
fn timestamps_compare_by_fields() {
    let a = Timestamp { date: Date { year: 2024, month: 3, day: 7 }, hour: 21, minute: 45, second: 0 };
    let b = Timestamp { date: Date { year: 2024, month: 3, day: 7 }, hour: 21, minute: 45, second: 0 };
    assert_eq!(a, b);
}
