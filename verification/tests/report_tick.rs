use foxholewarbot::cron::{
    job_trigger, job_uuid, restore_summary, CronError, ReportJob, ReportTick, TickAction,
    TickEnd, TickEvent,
};
use foxholewarbot::db::{GuildData, JobWithGuild};

fn guild(approved: bool) -> GuildData {
    GuildData {
        id: 3,
        guild_id: 30,
        shard: "https://war-service-live.foxholeservices.com/api".to_string(),
        shard_name: "Able".to_string(),
        show_command_output: true,
        full_map_faction_tint: true,
        frontline: true,
        timezone: "UTC".to_string(),
        full_map_approved: approved,
    }
}

fn job(map_name: Option<&str>) -> ReportJob {
    ReportJob {
        guild_row_id: 3,
        schedule_name: "nightly".to_string(),
        schedule: "0 0 * * * *".to_string(),
        schedule_label: Some("hourly, on the hour".to_string()),
        timezone: "UTC".to_string(),
        webhook_url: "https://discord.example/webhook".to_string(),
        map_name: map_name.map(str::to_string),
        draw_text: false,
    }
}

fn step(tick: ReportTick, event: TickEvent) -> (ReportTick, TickAction) {
    tick.step(event)
}

/// Runs a tick up to the point where the webhook is open.
fn opened(job: ReportJob, approved: bool, next_tick: Option<i64>) -> (ReportTick, TickAction) {
    let (tick, action) = step(ReportTick::new(job, next_tick), TickEvent::Begin);
    assert!(matches!(action, TickAction::LoadGuild));
    let (tick, action) = step(tick, TickEvent::GuildLoaded(Some(guild(approved))));
    assert!(matches!(action, TickAction::OpenWebhook));
    step(tick, TickEvent::WebhookOpened)
}

#[test]
fn a_region_report_edits_its_placeholder_into_the_report() {
    let (tick, action) = opened(job(Some("DeadLandsHex")), false, Some(100));
    let TickAction::PostPlaceholder(embed) = action else { panic!("expected the placeholder") };
    assert_eq!(embed.title.as_deref(), Some("Scheduled Report: nightly"));
    assert_eq!(embed.color, (150, 150, 150));
    assert_eq!(
        embed.description.as_deref(),
        Some("Region: Deadlands\nFetching the latest war data and rendering the map…")
    );
    assert_eq!(embed.footer.as_deref(), Some("Started at"));

    let (tick, action) = step(tick, TickEvent::PlaceholderPosted(Some(5)));
    let TickAction::Render(request) = action else { panic!("expected a render") };
    assert_eq!(request.map_name.as_deref(), Some("DeadLandsHex"));
    assert!(request.frontline);
    assert!(!request.faction_tint, "the tint is for the world map only");

    let (tick, action) = step(tick, TickEvent::Rendered(Ok(0)));
    let TickAction::EditIntoReport { placeholder, report } = action else {
        panic!("expected the placeholder to become the report")
    };
    assert_eq!(placeholder, 5);
    assert_eq!(report.file_name, "DeadLandsHex.png");
    assert_eq!(report.embed.color, (0, 255, 0));
    assert_eq!(report.embed.image.as_deref(), Some("attachment://DeadLandsHex.png"));
    assert_eq!(
        report.embed.description.as_deref(),
        Some(
            "Region: Deadlands\nSchedule: hourly, on the hour (UTC)\nLast API Update: 1970 01 01 00:00:00\n\
             Next Scheduled Update: <t:100:F> (<t:100:R>)"
        )
    );

    let (_, action) = step(tick, TickEvent::Edited(true));
    assert!(matches!(action, TickAction::Finish(TickEnd::Delivered)));
}

#[test]
fn an_approved_world_map_is_tinted_and_says_what_takes_time() {
    let (tick, action) = opened(job(None), true, None);
    let TickAction::PostPlaceholder(embed) = action else { panic!("expected the placeholder") };
    assert_eq!(
        embed.description.as_deref(),
        Some(
            "Region: the whole world map\nFetching the latest war data for all 53 regions and \
             building the world map. This takes a few seconds…"
        )
    );
    let (tick, action) = step(tick, TickEvent::PlaceholderPosted(None));
    let TickAction::Render(request) = action else { panic!("expected a render") };
    assert!(request.map_name.is_none());
    assert!(request.faction_tint);

    let (tick, action) = step(tick, TickEvent::Rendered(Ok(0)));
    let TickAction::Post(report) = action else { panic!("no placeholder, so a fresh post") };
    assert_eq!(report.file_name, "full-map.png");
    assert!(!report.embed.description.unwrap().contains("Next Scheduled Update"));
    let (_, action) = step(tick, TickEvent::Posted);
    assert!(matches!(action, TickAction::Finish(TickEnd::Delivered)));
}

#[test]
fn a_dormant_world_map_is_told_once_and_renders_nothing() {
    let (tick, action) = opened(job(None), false, None);
    assert!(matches!(action, TickAction::ReadEntry));
    let (_, action) = step(tick, TickEvent::EntryRead(Some(true)));
    assert!(matches!(action, TickAction::Finish(TickEnd::Paused)));

    let (tick, _) = opened(job(None), false, None);
    let (tick, action) = step(tick, TickEvent::EntryRead(Some(false)));
    let TickAction::PostNotice(embed) = action else { panic!("expected the notice") };
    assert_eq!(embed.title.as_deref(), Some("Full-Map Approval Withdrawn: nightly"));
    assert_eq!(embed.color, (255, 170, 0));
    assert!(embed.description.unwrap().contains("paused rather than deleted"));
    let (tick, action) = step(tick, TickEvent::NoticePosted);
    assert!(matches!(action, TickAction::MarkNotified));
    let (_, action) = step(tick, TickEvent::Marked);
    assert!(matches!(action, TickAction::Finish(TickEnd::Paused)));
}

#[test]
fn a_failed_render_turns_the_placeholder_into_a_notice() {
    let (tick, _) = opened(job(Some("DeadLandsHex")), false, None);
    let (tick, _) = step(tick, TickEvent::PlaceholderPosted(Some(8)));
    let (tick, action) = step(tick, TickEvent::Rendered(Err("boom".to_string())));
    let TickAction::ShowFailure { placeholder, embed } = action else { panic!("expected a notice") };
    assert_eq!(placeholder, 8);
    assert_eq!(embed.color, (220, 70, 70));
    assert_eq!(embed.footer.as_deref(), Some("Failed at"));
    let (_, action) = step(tick, TickEvent::FailureShown);
    assert!(matches!(action, TickAction::Finish(TickEnd::Failed(reason)) if reason == "boom"));
}

#[test]
fn a_failed_edit_posts_fresh_and_removes_the_placeholder() {
    let (tick, _) = opened(job(Some("DeadLandsHex")), false, None);
    let (tick, _) = step(tick, TickEvent::PlaceholderPosted(Some(9)));
    let (tick, _) = step(tick, TickEvent::Rendered(Ok(0)));
    let (tick, action) = step(tick, TickEvent::Edited(false));
    assert!(matches!(action, TickAction::PostFresh));
    let (tick, action) = step(tick, TickEvent::Posted);
    assert!(matches!(action, TickAction::DeletePlaceholder(9)));
    let (_, action) = step(tick, TickEvent::Deleted);
    assert!(matches!(action, TickAction::Finish(TickEnd::Delivered)));
}

#[test]
fn a_job_without_its_guild_is_skipped() {
    let (tick, _) = step(ReportTick::new(job(None), None), TickEvent::Begin);
    let (_, action) = step(tick, TickEvent::GuildLoaded(None));
    assert!(matches!(action, TickAction::Finish(TickEnd::NoGuild)));
}

#[test]
fn a_failed_step_ends_the_tick_and_stray_events_are_refused() {
    let (tick, _) = step(ReportTick::new(job(None), None), TickEvent::Begin);
    let (_, action) = step(tick, TickEvent::Failed("db down".to_string()));
    assert!(matches!(action, TickAction::Finish(TickEnd::Failed(reason)) if reason == "db down"));

    let (_, action) = step(ReportTick::new(job(None), None), TickEvent::Posted);
    assert!(matches!(action, TickAction::Finish(TickEnd::OutOfOrder)));
}

#[test]
fn a_stored_row_becomes_its_job() {
    let row = JobWithGuild {
        job_row_id: 11,
        guild_row_id: 3,
        job_name: "nightly".to_string(),
        schedule: "0 0 * * * *".to_string(),
        schedule_label: None,
        timezone: "Europe/Berlin".to_string(),
        webhook_url: "https://discord.example/webhook".to_string(),
        map_name: Some("DeadLandsHex".to_string()),
        draw_text: true,
        job_id: None,
        guild_id: 30,
    };
    let job = ReportJob::from_row(&row);
    assert_eq!(job.guild_row_id, 3);
    assert_eq!(job.schedule_name, "nightly");
    assert_eq!(job.schedule_label, None);
    assert_eq!(job.timezone, "Europe/Berlin");
    assert_eq!(job.map_name.as_deref(), Some("DeadLandsHex"));
    assert!(job.draw_text);
}

#[test]
fn the_scheduler_is_given_the_expression_and_the_canonical_zone() {
    let mut stored = job(None);
    stored.timezone = "europe/london".to_string();
    let (cron, zone) = job_trigger(&stored).unwrap_or_else(|_| panic!("a valid expression"));
    assert_eq!(cron, "0 0 * * * *");
    assert_eq!(zone, "Europe/London");

    stored.timezone = "Nowhere/Special".to_string();
    let (_, zone) = job_trigger(&stored).unwrap_or_else(|_| panic!("a valid expression"));
    assert_eq!(zone, "UTC");
}

#[test]
fn an_unreadable_stored_schedule_is_named_in_the_error() {
    let mut stored = job(None);
    stored.schedule = "when the moon is full".to_string();
    let err = match job_trigger(&stored) {
        Err(err) => err,
        Ok(_) => panic!("that isn't a schedule"),
    };
    assert!(matches!(&err, CronError::BadSchedule(s) if s == "when the moon is full"));
    assert_eq!(
        err.message(),
        "the schedule 'when the moon is full' isn't a phrase the scheduler understands"
    );
    assert_eq!(
        CronError::Scheduler("full".to_string()).message(),
        "the scheduler rejected the job: full"
    );
}

#[test]
fn restores_are_summed_up() {
    assert_eq!(restore_summary(false, 0, 0), "no scheduled reports to restore");
    assert_eq!(restore_summary(false, 2, 3), "restored 2/3 scheduled reports");
    assert_eq!(
        restore_summary(true, 3, 3),
        "rebuilt 3/3 scheduled reports for their timezones"
    );
}

#[test]
fn stored_job_ids_are_read_as_uuids() {
    assert_eq!(
        job_uuid(Some("67e55044-10b1-426f-9247-bb680e5fe0c8")),
        Some(0x67e5504410b1426f9247bb680e5fe0c8)
    );
    assert_eq!(job_uuid(Some("not-a-uuid")), None);
    assert_eq!(job_uuid(None), None);
}
