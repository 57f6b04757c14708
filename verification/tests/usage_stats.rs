use foxholewarbot::db::{UsageBucket, UsageOverview};
use foxholewarbot::usage::{column_of, describe, table, tallies_fit_check, FIELD_LIMIT};

fn row(bucket: &str, command: Option<&str>, uses: i64, servers: i64) -> UsageBucket {
    UsageBucket {
        bucket: bucket.to_string(),
        command: command.map(str::to_string),
        uses,
        servers,
    }
}

/// The line for a bucket, without the fence or the header.
fn line_for<'a>(table: &'a str, bucket: &str) -> Option<&'a str> {
    table.lines().find(|line| line.starts_with(bucket))
}

#[test]
fn commands_land_in_their_columns() {
    let rows = vec![
        row("2026-07-29", Some("get-map"), 4, 2),
        row("2026-07-29", Some("full-map"), 1, 1),
        row("2026-07-29", Some("scheduled-report"), 6, 1),
        row("2026-07-29", Some("schedule-report"), 3, 1),
        row("2026-07-29", Some("war-state"), 2, 1),
        row("2026-07-29", None, 16, 3),
    ];

    let table = table(&rows, &["2026-07-29".to_string()]);
    let counts: Vec<&str> = line_for(&table, "2026-07-29")
        .expect("the bucket should be rendered")
        .split_whitespace()
        .skip(1)
        .collect();

    // get-map, full-map, reports, sch-cmd, other, servers.
    assert_eq!(counts, ["4", "1", "6", "3", "2", "3"]);
}

/// Both delivery kinds share the `reports` column, and both count.
#[test]
fn scheduled_deliveries_are_added_together() {
    let rows = vec![
        row("2026-07-29", Some("scheduled-report"), 6, 1),
        row("2026-07-29", Some("scheduled-full-map"), 2, 1),
        row("2026-07-29", None, 8, 1),
    ];

    let table = table(&rows, &["2026-07-29".to_string()]);
    let counts: Vec<&str> = line_for(&table, "2026-07-29")
        .unwrap()
        .split_whitespace()
        .skip(1)
        .collect();

    assert_eq!(counts[2], "8");
}

/// A subcommand is counted under its qualified name, which belongs to
/// nothing else.
#[test]
fn qualified_subcommand_names_fall_through_to_other() {
    assert_eq!(column_of("full-map-requests list"), 4);
}

#[test]
fn snake_case_command_names_use_their_dashboard_columns() {
    assert_eq!(column_of("get_map"), 0);
    assert_eq!(column_of("full_map"), 1);
    assert_eq!(column_of("schedule_report"), 3);
}

#[test]
fn legacy_snake_case_names_use_their_dashboard_columns() {
    assert_eq!(column_of("get_map"), 0);
    assert_eq!(column_of("full_map"), 1);
    assert_eq!(column_of("schedule_report"), 3);
}

/// The distinct-server count is the total row's, never the sum of the
/// per-command ones.
#[test]
fn servers_come_from_the_total_row() {
    let rows = vec![
        row("2026-07-29", Some("get-map"), 1, 1),
        row("2026-07-29", Some("full-map"), 1, 1),
        row("2026-07-29", Some("war-state"), 1, 1),
        row("2026-07-29", None, 3, 1),
    ];

    let table = table(&rows, &["2026-07-29".to_string()]);
    let counts: Vec<&str> = line_for(&table, "2026-07-29")
        .unwrap()
        .split_whitespace()
        .skip(1)
        .collect();

    assert_eq!(counts.last(), Some(&"1"));
}

/// A day nobody used the bot has no rows at all. It still has to appear, as
/// zeroes.
#[test]
fn quiet_buckets_are_rendered_as_zeroes() {
    let rows = vec![row("2026-07-29", Some("get-map"), 4, 1)];
    let buckets = ["2026-07-29".to_string(), "2026-07-28".to_string()];

    let table = table(&rows, &buckets);
    let quiet: Vec<&str> = line_for(&table, "2026-07-28")
        .expect("a bucket with no usage should still be a row")
        .split_whitespace()
        .skip(1)
        .collect();

    assert_eq!(quiet, ["0", "0", "0", "0", "0", "0"]);
}

/// The caps should mean this never fires, so the check is that the backstop
/// leaves a *valid* table behind when it does.
#[test]
fn an_oversized_table_still_closes_its_fence() {
    let buckets: Vec<String> = (1..=200).map(|n| format!("bucket-{n}")).collect();

    let table = table(&[], &buckets);

    assert!(table.len() <= FIELD_LIMIT);
    assert!(table.starts_with("```\n"));
    assert!(table.ends_with("```"));
}

#[test]
fn the_header_and_a_row_are_laid_out_in_fixed_columns() {
    let rows = vec![
        row("2026-07-29", Some("get-map"), 12, 2),
        row("2026-07-29", None, 12, 2),
    ];
    let table = table(&rows, &["2026-07-29".to_string()]);
    assert_eq!(
        table,
        "```\nbucket     get-map full-map reports sch-cmd other servers\n\
         2026-07-29      12        0       0       0     0       2\n```"
    );
}

#[test]
fn the_last_total_row_of_a_bucket_wins() {
    let rows = vec![
        row("2026-07-29", None, 1, 5),
        row("2026-07-29", None, 1, 7),
        row("2026-07-28", None, 1, 9),
    ];
    let table = table(&rows, &["2026-07-29".to_string()]);
    let counts: Vec<&str> = line_for(&table, "2026-07-29").unwrap().split_whitespace().collect();
    assert_eq!(counts.last(), Some(&"7"));
}

#[test]
fn an_empty_request_is_only_the_fenced_header() {
    let table = table(&[], &[]);
    assert_eq!(
        table,
        "```\nbucket     get-map full-map reports sch-cmd other servers\n```"
    );
}

#[test]
fn the_overview_reads_the_standing_counts() {
    let overview = UsageOverview {
        guilds: 3,
        approved_guilds: 2,
        schedules: 4,
        full_map_schedules: 1,
        scheduling_guilds: 2,
    };
    assert_eq!(
        describe(&overview),
        "**Set up right now**\nServers configured: **3** · approved for full-map schedules: **2**\n\
         Live schedules: **4** (**1** full-map) across **2** server(s)"
    );
}

#[test]
fn delivery_and_scheduling_names_have_their_own_columns() {
    assert_eq!(column_of("scheduled-report"), 2);
    assert_eq!(column_of("scheduled_full_map"), 2);
    assert_eq!(column_of("request-full-map-schedule"), 3);
    assert_eq!(column_of("remove_report"), 3);
    assert_eq!(column_of("schedule-help"), 3);
    assert_eq!(column_of("war-state"), 4);
}

#[test]
fn tallies_that_would_overflow_are_caught_before_counting() {
    let fine = vec![row("2024-05-01", Some("get-map"), 3, 0), row("2024-05-01", None, 0, 2)];
    assert!(tallies_fit_check(&fine));

    let too_many = vec![
        row("2024-05-01", Some("get-map"), i64::MAX, 0),
        row("2024-05-01", Some("get_map"), 1, 0),
    ];
    assert!(!tallies_fit_check(&too_many));

    let apart = vec![
        row("2024-05-01", Some("get-map"), i64::MAX, 0),
        row("2024-05-02", Some("get-map"), 1, 0),
        row("2024-05-01", Some("full-map"), 1, 0),
    ];
    assert!(tallies_fit_check(&apart));
}
