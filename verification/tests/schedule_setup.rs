use foxholewarbot::commands::{
    created_message, plan_schedule, unapproved_message, SchedulePlan,
};
use foxholewarbot::db::GuildData;
use foxholewarbot::schedule::{cadence, Frequency};
use foxholewarbot::setup::{ScheduleSetup, SetupAction, SetupEvent, NOT_SAVED, SCHEDULER_REJECTED};

fn guild(approved: bool) -> GuildData {
    GuildData {
        id: 3,
        guild_id: 30,
        shard: "https://war-service-live.foxholeservices.com/api".to_string(),
        shard_name: "Able".to_string(),
        show_command_output: false,
        full_map_faction_tint: false,
        frontline: false,
        timezone: "Europe/Berlin".to_string(),
        full_map_approved: approved,
    }
}

fn setup() -> ScheduleSetup {
    let hourly = cadence(Frequency::Hourly, None, None, None).unwrap();
    ScheduleSetup::new(
        3,
        "nightly".to_string(),
        99,
        true,
        Some("DeadLandsHex".to_string()),
        "Europe/Berlin".to_string(),
        hourly,
        vec![3600, 7200, 10800, 14400],
    )
}

fn step(s: ScheduleSetup, event: SetupEvent) -> (ScheduleSetup, SetupAction) {
    s.step(event)
}

/// Up to the point where the scheduler has been asked.
fn scheduled(created: bool) -> ScheduleSetup {
    let (s, action) = step(setup(), SetupEvent::Begin);
    assert!(matches!(action, SetupAction::CheckName));
    let (s, action) = step(s, SetupEvent::NameChecked(false));
    assert!(matches!(action, SetupAction::ResolveWebhook));
    let (s, action) = step(s, SetupEvent::WebhookResolved(Some(created)));
    assert!(matches!(action, SetupAction::ReadUrl));
    let (s, action) = step(s, SetupEvent::UrlRead(Ok("https://hook".to_string())));
    let SetupAction::Schedule(job) = action else { panic!("expected the job") };
    assert_eq!(job.schedule, "0 0 * * * *");
    assert_eq!(job.schedule_label.as_deref(), Some("hourly, on the hour"));
    assert_eq!(job.timezone, "Europe/Berlin");
    assert_eq!(job.webhook_url, "https://hook");
    assert_eq!(job.map_name.as_deref(), Some("DeadLandsHex"));
    assert!(job.draw_text);
    s
}

#[test]
fn a_setup_schedules_then_stores_then_says_when_it_fires() {
    let (s, action) = step(scheduled(true), SetupEvent::Scheduled(Ok("id-1".to_string())));
    let SetupAction::Persist(row) = action else { panic!("expected the row") };
    assert_eq!(row.job_id, "id-1");
    assert_eq!(row.webhook_url, "https://hook");
    assert_eq!(row.job_name, "nightly");
    let (_, action) = step(s, SetupEvent::Persisted(true));
    let SetupAction::Finish(end) = action else { panic!("expected the end") };
    assert!(end.unschedule.is_none() && !end.delete_webhook && end.error.is_none());
    assert_eq!(
        end.reply,
        Some(created_message("nightly", "hourly, on the hour", "Europe/Berlin", 99, &[3600, 7200, 10800, 14400]))
    );
}

#[test]
fn a_taken_name_changes_nothing() {
    let (s, _) = step(setup(), SetupEvent::Begin);
    let (_, action) = step(s, SetupEvent::NameChecked(true));
    let SetupAction::Finish(end) = action else { panic!("expected the end") };
    assert_eq!(
        end.reply.as_deref(),
        Some("This server already has a scheduled report named `nightly`. Pick another name.")
    );
    assert!(!end.delete_webhook);
}

#[test]
fn a_missing_webhook_permission_is_named() {
    let (s, _) = step(setup(), SetupEvent::Begin);
    let (s, _) = step(s, SetupEvent::NameChecked(false));
    let (_, action) = step(s, SetupEvent::WebhookResolved(None));
    let SetupAction::Finish(end) = action else { panic!("expected the end") };
    assert_eq!(
        end.reply.as_deref(),
        Some("I couldn't create a webhook in <#99>. Make sure I have **Manage Webhooks** there.")
    );
}

#[test]
fn a_rejected_schedule_takes_its_new_webhook_with_it() {
    let (_, action) = step(scheduled(true), SetupEvent::Scheduled(Err("nope".to_string())));
    let SetupAction::Finish(end) = action else { panic!("expected the end") };
    assert!(end.delete_webhook);
    assert!(end.unschedule.is_none());
    assert_eq!(end.reply.as_deref(), Some(SCHEDULER_REJECTED));

    let (_, action) = step(scheduled(false), SetupEvent::Scheduled(Err("nope".to_string())));
    let SetupAction::Finish(end) = action else { panic!("expected the end") };
    assert!(!end.delete_webhook, "a webhook the channel already had is kept");
}

#[test]
fn a_failed_save_unschedules_the_job() {
    let (s, _) = step(scheduled(true), SetupEvent::Scheduled(Ok("id-2".to_string())));
    let (_, action) = step(s, SetupEvent::Persisted(false));
    let SetupAction::Finish(end) = action else { panic!("expected the end") };
    assert_eq!(end.unschedule.as_deref(), Some("id-2"));
    assert!(end.delete_webhook);
    assert_eq!(end.reply.as_deref(), Some(NOT_SAVED));
}

#[test]
fn an_unreadable_webhook_url_is_an_error() {
    let (s, _) = step(setup(), SetupEvent::Begin);
    let (s, _) = step(s, SetupEvent::NameChecked(false));
    let (s, _) = step(s, SetupEvent::WebhookResolved(Some(true)));
    let (_, action) = step(s, SetupEvent::UrlRead(Err("no token".to_string())));
    let SetupAction::Finish(end) = action else { panic!("expected the end") };
    assert!(end.delete_webhook);
    assert_eq!(end.error.as_deref(), Some("no token"));
    assert!(end.reply.is_none());
}

#[test]
fn the_world_map_needs_approval_to_schedule() {
    let plan = plan_schedule(&guild(false), "full-map", Frequency::Hourly, None, None, None, None);
    assert!(matches!(plan, SchedulePlan::NeedsApproval));
    assert!(unapproved_message(None).contains("needs approval first"));
    assert_eq!(
        unapproved_message(Some((5, 100))),
        "Request **#5** (filed <t:100:R>) is still waiting for a decision — you'll hear back in the channel it named. `/full-map` works on demand meanwhile."
    );
}

#[test]
fn an_approved_world_map_is_held_to_an_hour() {
    let plan = plan_schedule(&guild(true), "full-map", Frequency::Every30Minutes, None, None, None, None);
    let SchedulePlan::Refused(reason) = plan else { panic!("every 30 minutes is too often") };
    assert_eq!(
        reason,
        "That schedule would post as often as every **30 minutes**, and the minimum is **60**. \
         All 53 regions are re-rendered every time, and the war doesn't move that fast. \
         `/get-map` and `/full-map` are still on demand and unlimited."
    );
}

#[test]
fn a_region_plan_is_ready_with_real_fire_times() {
    let plan = plan_schedule(
        &guild(false),
        "DeadLandsHex",
        Frequency::Every2Hours,
        Some("01:00"),
        Some("utc"),
        None,
        None,
    );
    let SchedulePlan::Ready { target, zone, cadence, fires } = plan else { panic!("a plan") };
    assert_eq!(target.as_deref(), Some("DeadLandsHex"));
    assert_eq!(zone, "UTC");
    assert_eq!(cadence.cron, "0 0 1,3,5,7,9,11,13,15,17,19,21,23 * * *");
    assert_eq!(fires.len(), 4);
    assert!(fires.windows(2).all(|pair| pair[1] - pair[0] == 7200));
}

#[test]
fn a_bad_zone_is_refused_before_anything_else() {
    let plan = plan_schedule(&guild(false), "DeadLandsHex", Frequency::Hourly, None, Some("Mars"), None, None);
    let SchedulePlan::Refused(reason) = plan else { panic!("an unknown zone") };
    assert_eq!(reason, "`Mars` isn't a timezone I know. Pick one from the autocomplete list.");
}

#[test]
fn the_created_message_says_nothing_posts_yet() {
    let text = created_message("nightly", "hourly, on the hour", "UTC", 99, &[100, 200, 300, 400]);
    assert_eq!(
        text,
        "Scheduled report `nightly` created — **hourly, on the hour** (UTC), posting to <#99>.\n\
         **Nothing posts right now.** The first report arrives at the first time below (<t:100:R>) — \
         a schedule waits for its next slot, it doesn't fire on creation.\nNext three runs:\n\
         • <t:100:F> (<t:100:R>)\n• <t:200:F> (<t:200:R>)\n• <t:300:F> (<t:300:R>)"
    );
}
