use foxholewarbot::commands::{plan_from_fires, SchedulePlan};
use foxholewarbot::schedule::{
    cadence, describe, fires_or_never, min_interval_minutes, next_fires, preview_lines, shortest_gap_minutes,
    timezone, timezone_or_utc, Day, Frequency, ScheduleError, PREVIEW_COUNT,
};

fn cron_and_label(frequency: Frequency, at: Option<&str>, day: Option<Day>) -> (String, String) {
    let c = cadence(frequency, at, day, None).expect("a listed frequency builds");
    (c.cron, c.label)
}

#[test]
fn every_six_hours_lines_up_with_the_anchor() {
    let (cron, label) = cron_and_label(Frequency::Every6Hours, Some("03:30"), None);
    assert_eq!(cron, "0 30 3,9,15,21 * * *");
    assert_eq!(label, "every 6 hours — 03:30, 09:30, 15:30, 21:30");
}

#[test]
fn every_thirty_minutes_keeps_the_offset() {
    let (cron, label) = cron_and_label(Frequency::Every30Minutes, Some("00:07"), None);
    assert_eq!(cron, "0 7,37 * * * *");
    assert_eq!(label, "every 30 minutes, at :07");
}

#[test]
fn a_blank_anchor_is_the_top_of_the_hour() {
    let (cron, label) = cron_and_label(Frequency::Hourly, None, None);
    assert_eq!(cron, "0 0 * * * *");
    assert_eq!(label, "hourly, on the hour");
    let (cron, label) = cron_and_label(Frequency::Every30Minutes, None, None);
    assert_eq!(cron, "0 0,30 * * * *");
    assert_eq!(label, "every 30 minutes");
}

#[test]
fn hourly_at_a_minute() {
    let (cron, label) = cron_and_label(Frequency::Hourly, Some("10:45"), None);
    assert_eq!(cron, "0 45 * * * *");
    assert_eq!(label, "hourly, at :45");
}

#[test]
fn every_twelve_hours_from_the_afternoon_starts_in_the_morning() {
    let (cron, label) = cron_and_label(Frequency::Every12Hours, Some("18:05"), None);
    assert_eq!(cron, "0 5 6,18 * * *");
    assert_eq!(label, "every 12 hours — 06:05, 18:05");
}

#[test]
fn daily_reads_as_a_clock_time() {
    let (cron, label) = cron_and_label(Frequency::Daily, Some("18:00"), None);
    assert_eq!(cron, "0 0 18 * * *");
    assert_eq!(label, "daily at 18:00");
}

#[test]
fn a_dot_separates_hours_and_minutes_too() {
    let (cron, _) = cron_and_label(Frequency::Daily, Some(" 7.5 "), None);
    assert_eq!(cron, "0 5 7 * * *");
}

#[test]
fn weekly_defaults_to_monday() {
    let (cron, label) = cron_and_label(Frequency::Weekly, None, None);
    assert_eq!(cron, "0 0 0 * * 1");
    assert_eq!(label, "every Monday at 00:00");
    let (cron, label) = cron_and_label(Frequency::Weekly, Some("09:15"), Some(Day::Friday));
    assert_eq!(cron, "0 15 9 * * 5");
    assert_eq!(label, "every Friday at 09:15");
}

#[test]
fn sunday_is_day_zero() {
    assert_eq!(Day::Sunday.number(), 0);
    assert_eq!(Day::Saturday.number(), 6);
    assert_eq!(Day::Wednesday.name(), "Wednesday");
}

#[test]
fn a_time_out_of_range_is_refused_with_an_example() {
    let err = cadence(Frequency::Daily, Some(" 25:00 "), None, None).unwrap_err();
    assert_eq!(err, ScheduleError::BadTime("25:00".to_string()));
    assert_eq!(
        err.message(),
        "`25:00` isn't a time I understand. Use 24-hour `HH:MM`, for example `18:30`."
    );
    assert!(cadence(Frequency::Daily, Some("12:60"), None, None).is_err());
    assert!(cadence(Frequency::Daily, Some("noon"), None, None).is_err());
}

#[test]
fn custom_needs_something_to_read() {
    assert_eq!(
        cadence(Frequency::Custom, None, None, None).unwrap_err(),
        ScheduleError::MissingCustom
    );
    assert_eq!(
        cadence(Frequency::Custom, None, None, Some("   ")).unwrap_err(),
        ScheduleError::MissingCustom
    );
}

#[test]
fn a_custom_expression_is_kept_as_typed() {
    let c = cadence(Frequency::Custom, None, None, Some(" 0 15 */2 * * * ")).unwrap();
    assert_eq!(c.cron, "0 15 */2 * * *");
    assert_eq!(c.label, "0 15 */2 * * *");
}

#[test]
fn a_custom_phrase_nobody_understands_is_refused() {
    let err = cadence(Frequency::Custom, None, None, Some("whenever you like")).unwrap_err();
    assert!(matches!(err, ScheduleError::BadCustom(_)));
    assert!(err.message().ends_with("isn't a schedule the scheduler understands"));
}

#[test]
fn timezones_resolve_to_their_canonical_names() {
    assert_eq!(timezone("europe/london").unwrap(), "Europe/London");
    assert_eq!(timezone("  UTC ").unwrap(), "UTC");
    assert_eq!(timezone("America/New_York").unwrap(), "America/New_York");
    let err = timezone(" Mars/Base ").unwrap_err();
    assert_eq!(err, ScheduleError::BadTimezone("Mars/Base".to_string()));
    assert_eq!(
        err.message(),
        "`Mars/Base` isn't a timezone I know. Pick one from the autocomplete list."
    );
}

#[test]
fn a_canonical_name_resolves_to_itself() {
    let first = timezone("AMERICA/chicago").unwrap();
    assert_eq!(timezone(&first).unwrap(), first);
}

#[test]
fn an_unknown_stored_zone_runs_in_utc() {
    assert_eq!(timezone_or_utc("Atlantis/Capital"), "UTC");
    assert_eq!(timezone_or_utc("europe/berlin"), "Europe/Berlin");
}

#[test]
fn hourly_fires_an_hour_apart() {
    let fires = next_fires("0 0 * * * *", "UTC", PREVIEW_COUNT + 1).unwrap();
    assert_eq!(fires.len(), PREVIEW_COUNT + 1);
    for pair in fires.windows(2) {
        assert_eq!(pair[1] - pair[0], 3600);
    }
    assert_eq!(shortest_gap_minutes(&fires), Some(60));
}

#[test]
fn an_expression_the_parser_refuses_never_fires() {
    let err = next_fires("every now and then", "UTC", 4).unwrap_err();
    assert_eq!(err, ScheduleError::BadCustom("every now and then".to_string()));
}

#[test]
fn the_shortest_gap_is_in_whole_minutes() {
    assert_eq!(shortest_gap_minutes(&[0, 3600, 5400, 9000]), Some(30));
    assert_eq!(shortest_gap_minutes(&[0, 119]), Some(1));
    assert_eq!(shortest_gap_minutes(&[100]), None);
    assert_eq!(shortest_gap_minutes(&[]), None);
}

#[test]
fn the_floor_is_an_hour_for_the_world_map() {
    assert_eq!(min_interval_minutes(true), 60);
    assert_eq!(min_interval_minutes(false), 30);
}

#[test]
fn previews_are_discord_timestamps_one_per_line() {
    assert_eq!(preview_lines(&[]), "");
    assert_eq!(
        preview_lines(&[100, 200]),
        "• <t:100:F> (<t:100:R>)\n• <t:200:F> (<t:200:R>)"
    );
}

#[test]
fn a_schedule_is_described_by_its_label_or_its_expression() {
    assert_eq!(describe(Some("daily at 18:00"), "0 0 18 * * *", "UTC"), "daily at 18:00 (UTC)");
    assert_eq!(
        describe(None, "every 2 hours", "Europe/Berlin"),
        "every 2 hours (Europe/Berlin)"
    );
}

fn hourly_cadence() -> foxholewarbot::schedule::Cadence {
    cadence(Frequency::Hourly, None, None, None).expect("hourly builds")
}

#[test]
fn no_previewed_times_is_a_schedule_that_never_fires() {
    let plan = plan_from_fires(Some("DeadLandsHex".to_string()), "UTC".to_string(), hourly_cadence(), Vec::new(), false);
    match plan {
        SchedulePlan::Refused(text) => assert_eq!(text, "that schedule has no future run times"),
        _ => panic!("an empty preview is refused"),
    }
    assert!(matches!(fires_or_never(Vec::new()), Err(ScheduleError::NeverFires)));
    assert!(matches!(fires_or_never(vec![60]), Ok(f) if f == vec![60]));
}

#[test]
fn runs_closer_than_the_floor_are_refused_naming_the_gap() {
    let fires = vec![0, 15 * 60, 30 * 60, 45 * 60];
    match plan_from_fires(Some("DeadLandsHex".to_string()), "UTC".to_string(), hourly_cadence(), fires, false) {
        SchedulePlan::Refused(text) => {
            assert!(text.starts_with("That schedule would post as often as every **15 minutes**, and the minimum is **30**."));
        }
        _ => panic!("a fifteen-minute cadence is refused"),
    }
}

#[test]
fn runs_far_enough_apart_are_ready_with_those_times() {
    let fires = vec![0, 3600, 7200, 10800];
    match plan_from_fires(None, "UTC".to_string(), hourly_cadence(), fires.clone(), true) {
        SchedulePlan::Ready { target, zone, fires: kept, .. } => {
            assert_eq!(target, None);
            assert_eq!(zone, "UTC");
            assert_eq!(kept, fires);
        }
        _ => panic!("an hourly world map is ready"),
    }
}
