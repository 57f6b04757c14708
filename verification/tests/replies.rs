use foxholewarbot::commands::settings_summary;
use foxholewarbot::db::{JobData, Shard, UsageOverview};
use foxholewarbot::foxhole::{War, WarReport};
use foxholewarbot::http::HttpStatus;
use foxholewarbot::map_render::MapError;
use foxholewarbot::replies::{
    app_id, command_failed, dev_guild_id, guild_key, no_such_schedule, nothing_changed,
    region_reply, schedule_removed, war_report_embed, war_report_refused, war_state_embed,
    war_state_refused, war_state_unreadable, webhook_still_used, world_failure, world_reply,
    NEEDS_SETUP, SCHEDULE_HELP, SUPPORT_INVITE,
};
use foxholewarbot::timestamp::{format_timestamp, timestamp_or_unknown};
use foxholewarbot::usage::{usage_embed, usage_span, DEFAULT_DAYS, MAX_DAYS};

#[test]
fn timestamps_print_in_utc_or_say_unknown() {
    assert_eq!(format_timestamp(0), "1970 01 01 00:00:00");
    assert_eq!(format_timestamp(1_700_000_000_000), "2023 11 14 22:13:20");
    assert_eq!(format_timestamp(i64::MAX), "unknown");
    assert_eq!(timestamp_or_unknown(None), "unknown");
}

#[test]
fn a_region_reply_is_named_and_attached() {
    let reply = region_reply("DeadLandsHex", 0);
    assert_eq!(reply.file_name, "DeadLandsHex.png");
    assert_eq!(reply.embed.title.as_deref(), Some("Deadlands"));
    assert_eq!(reply.embed.description.as_deref(), Some("Last API Update: 1970 01 01 00:00:00"));
    assert_eq!(reply.embed.image.as_deref(), Some("attachment://DeadLandsHex.png"));
    assert_eq!(reply.embed.footer.as_deref(), Some("Requested at"));
}

#[test]
fn the_world_map_is_named_for_its_shard() {
    let reply = world_reply("Charlie", 0);
    assert_eq!(reply.file_name, "full-map-charlie.png");
    assert_eq!(reply.embed.title.as_deref(), Some("World Conquest — Charlie"));
    assert!(world_failure(&MapError::ApiUnavailable, "Charlie").contains("shard **Charlie**"));
    assert_eq!(
        world_failure(&MapError::TooLarge(1), "Charlie"),
        "The full map came out too large to upload. Please report this."
    );
    assert_eq!(
        world_failure(&MapError::TaskPanicked, "Charlie"),
        "Couldn't render the full map. Try again shortly."
    );
}

#[test]
fn a_war_report_lists_its_four_numbers() {
    let report = WarReport {
        total_enlistments: 1200,
        colonial_casualties: 340,
        warden_casualties: 310,
        day_of_war: 12,
        version: 7,
    };
    let embed = war_report_embed(&report, "DeadLandsHex");
    assert_eq!(embed.title.as_deref(), Some("Deadlands"));
    assert_eq!(embed.color, (0, 0, 0));
    let values: Vec<(&str, &str)> =
        embed.fields.iter().map(|f| (f.name.as_str(), f.value.as_str())).collect();
    assert_eq!(
        values,
        vec![
            ("Total Enlistments", "1200"),
            ("Colonial Casualties", "340"),
            ("Warden Casualties", "310"),
            ("Day Of War", "12"),
        ]
    );
    assert_eq!(
        war_report_refused(&HttpStatus::new(502).unwrap()),
        "The Foxhole API returned `502 Bad Gateway` for that region. Try again shortly."
    );
}

#[test]
fn the_war_state_names_the_shard() {
    let war = War {
        war_id: "abc".to_string(),
        war_number: 120,
        winner: "NONE".to_string(),
        conquest_start_time: 0,
        required_victory_towns: 32,
    };
    let embed = war_state_embed(&war, "Able");
    assert_eq!(embed.title, None);
    assert_eq!(embed.color, (255, 0, 0));
    let values: Vec<(&str, &str)> =
        embed.fields.iter().map(|f| (f.name.as_str(), f.value.as_str())).collect();
    assert_eq!(
        values,
        vec![
            ("Shard/Server", "Able"),
            ("War Number", "120"),
            ("Winner", "NONE"),
            ("Conquest Start Time", "1970 01 01 00:00:00"),
            ("Required Victory Towns", "32"),
        ]
    );
    assert_eq!(war_state_refused(&HttpStatus::ok(), "Able"), None);
    assert_eq!(
        war_state_refused(&HttpStatus::new(503).unwrap(), "Able").unwrap(),
        "The Foxhole API returned `503 Service Unavailable` for shard **Able**. It may be between wars or down — try again shortly."
    );
    assert!(war_state_unreadable("Able").starts_with("Shard **Able** answered with something"));
}

fn job(id: i64, url: &str) -> JobData {
    JobData {
        id,
        guild: 1,
        job_name: format!("job{id}"),
        schedule: "0 0 * * * *".to_string(),
        schedule_label: None,
        timezone: "UTC".to_string(),
        webhook_url: url.to_string(),
        map_name: None,
        draw_text: false,
        job_id: None,
        dormant_notified: false,
    }
}

#[test]
fn a_shared_webhook_outlives_one_of_its_reports() {
    let removed = job(1, "https://hook/a");
    let others = vec![job(1, "https://hook/a"), job(2, "https://hook/a"), job(3, "https://hook/b")];
    assert!(webhook_still_used(&others, &removed));
    let alone = vec![job(1, "https://hook/a"), job(3, "https://hook/b")];
    assert!(!webhook_still_used(&alone, &removed));
    assert_eq!(
        no_such_schedule("x"),
        "This server has no scheduled report named `x`. Check the name and try again."
    );
    assert_eq!(schedule_removed("x"), "Scheduled report `x` was removed.");
}

#[test]
fn settings_are_reported_from_the_stored_row() {
    assert_eq!(
        settings_summary(false, Shard::Baker, true, true, false, "Europe/Berlin"),
        "Created — shard **Baker**, command output visible to everyone, full-map faction tint **on**, frontline **off**, timezone **Europe/Berlin**."
    );
    assert_eq!(nothing_changed("Shard down."), "Shard down.\n\nNothing was changed.");
}

#[test]
fn startup_settings_are_read_strictly() {
    assert_eq!(guild_key(Some(7)), Ok(7));
    assert_eq!(guild_key(Some(u64::MAX)), Ok(-1));
    assert!(guild_key(None).is_err());
    assert_eq!(dev_guild_id(Some("123")), Ok(123));
    assert_eq!(dev_guild_id(Some("abc")), Err("GUILD_ID must be an integer"));
    assert_eq!(dev_guild_id(None), Err("GUILD_ID is not set in .env"));
    assert_eq!(app_id("9"), Ok(9));
    assert!(app_id(" 9").is_err());
    assert!(command_failed().ends_with(SUPPORT_INVITE));
    assert!(NEEDS_SETUP.contains("/set-guild-settings"));
    assert!(SCHEDULE_HELP.contains("`every 6 hours` at `03:30` → 03:30, 09:30, 15:30, 21:30"));
}

#[test]
fn usage_spans_are_clamped() {
    assert_eq!(usage_span(None, DEFAULT_DAYS, MAX_DAYS), 7);
    assert_eq!(usage_span(Some(0), DEFAULT_DAYS, MAX_DAYS), 1);
    assert_eq!(usage_span(Some(99), DEFAULT_DAYS, MAX_DAYS), 14);
    let overview = UsageOverview {
        guilds: 1,
        approved_guilds: 0,
        schedules: 0,
        full_map_schedules: 0,
        scheduling_guilds: 0,
    };
    let embed = usage_embed(&overview);
    assert_eq!(embed.title.as_deref(), Some("Usage report - all servers"));
    assert_eq!(embed.image.as_deref(), Some("attachment://usage-stats.png"));
}
