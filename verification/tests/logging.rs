use foxholewarbot::logging::{
    console_filter, crate_target, files_to_prune, filter_setting, LogEntry, is_ours, log_dir, max_level, prune_and_report,
    prune_step, prunes_anything, retention_days, verbose_filter, LogFiles, PruneNote, PruneStep,
    DAY_SECS,
};

#[test]
fn the_log_directory_defaults_and_can_be_turned_off() {
    assert_eq!(log_dir(None).as_deref(), Some("./logs"));
    assert_eq!(log_dir(Some("  ")), None);
    assert_eq!(log_dir(Some(" /var/log/bot ")).as_deref(), Some("/var/log/bot"));
}

#[test]
fn retention_falls_back_to_two_weeks() {
    let r = retention_days(None);
    assert_eq!((r.days, r.invalid), (14, false));
    let r = retention_days(Some(""));
    assert_eq!((r.days, r.invalid), (14, false));
    let r = retention_days(Some(" 30 "));
    assert_eq!((r.days, r.invalid), (30, false));
    let r = retention_days(Some("a month"));
    assert_eq!((r.days, r.invalid), (14, true));
}

#[test]
fn filters_default_when_blank() {
    assert_eq!(filter_setting(None, "warn"), "warn");
    assert_eq!(filter_setting(Some(" "), "warn"), "warn");
    assert_eq!(filter_setting(Some("debug"), "warn"), "debug");
    assert_eq!(console_filter("foxholewarbot"), "warn,foxholewarbot=info,tracing::span=off");
    assert_eq!(verbose_filter("foxholewarbot"), "debug,foxholewarbot=trace,tracing::span=off");
}

#[test]
fn the_crate_target_is_the_first_path_segment() {
    assert_eq!(crate_target("foxholewarbot::utils::logging"), "foxholewarbot");
    assert_eq!(crate_target("foxholewarbot"), "foxholewarbot");
}

#[test]
fn the_root_level_admits_the_most_verbose_sink() {
    assert_eq!(max_level(&["warn,foxholewarbot=info", "debug,foxholewarbot=trace"]), 5);
    assert_eq!(max_level(&["warn"]), 2);
    assert_eq!(max_level(&[]), 3);
}

#[test]
fn only_our_own_log_files_are_pruned() {
    assert!(is_ours("foxholewarbot.2026-01-02.log"));
    assert!(is_ours("foxholewarbot-verbose.2026-01-02.log"));
    assert!(!is_ours("other.2026-01-02.log"));
    assert!(!is_ours("foxholewarbot.2026-01-02.txt"));
}

#[test]
fn files_older_than_the_window_go() {
    let now = 100 * DAY_SECS as i64;
    let old = now - 15 * DAY_SECS as i64;
    let young = now - 13 * DAY_SECS as i64;
    assert!(matches!(prune_step(Some("foxholewarbot.a.log"), Some(old), now, 14), PruneStep::Remove));
    assert!(matches!(prune_step(Some("foxholewarbot.a.log"), Some(young), now, 14), PruneStep::Keep));
    assert!(matches!(prune_step(Some("foxholewarbot.a.log"), None, now, 14), PruneStep::AgeUnknown));
    assert!(matches!(prune_step(Some("notes.log"), Some(old), now, 14), PruneStep::Skip));
    assert!(matches!(prune_step(None, Some(old), now, 14), PruneStep::Skip));
}

#[test]
fn a_prune_is_reported_only_when_something_happened() {
    let logs = LogFiles { dir: "./logs".to_string(), retention_days: 14 };
    assert!(prunes_anything(&logs));
    assert!(!prunes_anything(&LogFiles { dir: "./logs".to_string(), retention_days: 0 }));
    assert!(prune_and_report(&logs, Ok(0)).is_none());
    assert!(matches!(
        prune_and_report(&logs, Ok(3)),
        Some(PruneNote::Info(t)) if t == "removed 3 log file(s) past the retention window"
    ));
    assert!(matches!(
        prune_and_report(&logs, Err("denied".to_string())),
        Some(PruneNote::Warn(t)) if t == "could not tidy ./logs: denied"
    ));
}

fn entry(name: &str, modified: i64) -> LogEntry {
    LogEntry { name: Some(name.to_string()), modified: Some(modified) }
}

#[test]
fn the_prune_removes_exactly_our_files_past_the_window() {
    let now = 100 * DAY_SECS as i64;
    let logs = LogFiles { dir: "./logs".to_string(), retention_days: 14 };
    let entries = vec![
        entry("foxholewarbot.2024-01-01.log", now - 20 * DAY_SECS as i64),
        entry("foxholewarbot.2024-02-01.log", now - DAY_SECS as i64),
        entry("somebody-else.log", now - 30 * DAY_SECS as i64),
        entry("foxholewarbot-verbose.2024-01-01.log", now - 15 * DAY_SECS as i64),
        LogEntry { name: None, modified: Some(0) },
        LogEntry { name: Some("foxholewarbot.old.log".to_string()), modified: None },
    ];
    assert_eq!(files_to_prune(&logs, &entries, now), vec![0, 3]);

    let keep_all = LogFiles { dir: "./logs".to_string(), retention_days: 0 };
    assert!(files_to_prune(&keep_all, &entries, now).is_empty());
}
