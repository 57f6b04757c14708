use chrono::Datelike;
use foxholewarbot::timestamp::{day_buckets, days_back, week_buckets, weeks_back};
use foxholewarbot::usage::DEFAULT_DAYS;

#[test]
fn the_default_span_is_a_full_week_ending_today() {
    let days = day_buckets(DEFAULT_DAYS);

    assert_eq!(days.len(), DEFAULT_DAYS as usize);
    assert_eq!(days[0], chrono::Utc::now().format("%Y-%m-%d").to_string());
}

#[test]
fn week_buckets_are_mondays_seven_days_apart() {
    let weeks = week_buckets(4);
    assert_eq!(weeks.len(), 4);

    for label in &weeks {
        let date = chrono::NaiveDate::parse_from_str(label, "%Y-%m-%d").unwrap();
        assert_eq!(date.weekday(), chrono::Weekday::Mon);
    }

    let newest = chrono::NaiveDate::parse_from_str(&weeks[0], "%Y-%m-%d").unwrap();
    let next = chrono::NaiveDate::parse_from_str(&weeks[1], "%Y-%m-%d").unwrap();
    assert_eq!((newest - next).num_days(), 7);
}

#[test]
fn day_labels_count_back_from_the_given_day() {
    let day = chrono::NaiveDate::from_ymd_opt(2026, 7, 29).unwrap().num_days_from_ce() as i64;
    assert_eq!(days_back(day, 3), ["2026-07-29", "2026-07-28", "2026-07-27"]);
    assert!(days_back(day, 0).is_empty());
}

#[test]
fn week_labels_start_on_the_monday_of_the_given_week() {
    let wednesday = chrono::NaiveDate::from_ymd_opt(2026, 7, 29).unwrap();
    let day = wednesday.num_days_from_ce() as i64;
    let weekday = wednesday.weekday().num_days_from_monday();
    assert_eq!(weekday, 2);
    assert_eq!(weeks_back(day, weekday, 2), ["2026-07-27", "2026-07-20"]);
}
