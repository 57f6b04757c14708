//! The second half of `/schedule-report`: once a plan is ready, the steps
//! that touch the outside world — the name check, the webhook, the
//! scheduler, the row — in the order that can't leave debris behind.
//!
//! The job is registered before the row is written, so a rejected schedule
//! never leaves an orphan row that restores into nothing; and every failure
//! after the webhook was created takes the webhook (and, for a failed save,
//! the registered job) back down with it.
use vstd::prelude::*;
use vstd::string::*;

use crate::commands::{created_message, created_message_spec};
use crate::cron::{same_text, ReportJob};
use crate::db::NewJob;
use crate::embed::text_view;
use crate::schedule::Cadence;
use crate::text::{decimal, push_decimal, push_str, string_from_chars};

verus! {

/// The webhook a report posts through, found by this name in a channel or
/// created with it.
pub const WEBHOOK_NAME: &'static str = "Scheduled Map Report Webhook";

pub const SCHEDULER_REJECTED: &'static str = "The scheduler rejected that schedule. Check `/schedule-help` and try again.";

pub const NOT_SAVED: &'static str = "Couldn't save that schedule. Nothing was changed — please try again.";

pub open spec fn duplicate_name_text(schedule_name: Seq<char>) -> Seq<char> {
    "This server already has a scheduled report named `"@ + schedule_name + "`. Pick another name."@
}

pub open spec fn no_webhook_text(channel_id: u64) -> Seq<char> {
    "I couldn't create a webhook in <#"@ + decimal(channel_id as nat)
        + ">. Make sure I have **Manage Webhooks** there."@
}

fn duplicate_name(schedule_name: &str) -> (text: String)
    ensures
        text@ == duplicate_name_text(schedule_name@),
{
    let mut out: Vec<char> = Vec::new();
    push_str(&mut out, "This server already has a scheduled report named `");
    push_str(&mut out, schedule_name);
    push_str(&mut out, "`. Pick another name.");
    string_from_chars(&out)
}

fn no_webhook(channel_id: u64) -> (text: String)
    ensures
        text@ == no_webhook_text(channel_id),
{
    let mut out: Vec<char> = Vec::new();
    push_str(&mut out, "I couldn't create a webhook in <#");
    push_decimal(&mut out, channel_id);
    push_str(&mut out, ">. Make sure I have **Manage Webhooks** there.");
    string_from_chars(&out)
}

/// Where the setup is.
pub enum SetupStage {
    Start,
    /// Asking whether the name is taken in this server.
    CheckingName,
    /// Finding the bot's webhook in the channel, or creating it.
    ResolvingWebhook,
    /// Reading the webhook's URL; whether this run created the webhook.
    ReadingUrl { created: bool },
    /// Registering the job with the scheduler; the webhook's URL.
    Scheduling { created: bool, url: String },
    /// Writing the row; the scheduler's id for the job.
    Persisting { created: bool, job_id: String },
    Finished,
}

/// What the driver reports back.
pub enum SetupEvent {
    Begin,
    /// Whether a schedule of this name already exists here.
    NameChecked(bool),
    /// Whether the webhook was created for this report, or `None` when none
    /// could be found or made.
    WebhookResolved(Option<bool>),
    /// The webhook's URL, or why it couldn't be read.
    UrlRead(Result<String, String>),
    /// The scheduler's id for the job, or why it refused it.
    Scheduled(Result<String, String>),
    /// Whether the row was written.
    Persisted(bool),
    /// A step failed outright.
    Failed(String),
}

/// How the setup ends: what to undo, then what to say — or the error to
/// raise when there is nothing sensible to say.
pub struct SetupEnd {
    /// The scheduler job to remove again.
    pub unschedule: Option<String>,
    /// Delete the webhook this run created.
    pub delete_webhook: bool,
    pub reply: Option<String>,
    pub error: Option<String>,
}

/// What the driver should do next.
pub enum SetupAction {
    CheckName,
    ResolveWebhook,
    ReadUrl,
    Schedule(ReportJob),
    Persist(NewJob),
    Finish(SetupEnd),
}

/// A `/schedule-report` whose plan is ready, on its way to being stored.
pub struct ScheduleSetup {
    pub guild_row: i64,
    pub schedule_name: String,
    pub channel_id: u64,
    pub draw_text: bool,
    /// The region, or `None` for the whole world map.
    pub target: Option<String>,
    pub zone: String,
    pub cadence: Cadence,
    /// The previewed fire times.
    pub fires: Vec<i64>,
    pub stage: SetupStage,
}

pub open spec fn ends_with(
    action: SetupAction,
    unschedule: Option<Seq<char>>,
    delete_webhook: bool,
    reply: Option<Seq<char>>,
    error: Option<Seq<char>>,
) -> bool {
    action matches SetupAction::Finish(end) && text_view(end.unschedule) == unschedule
        && end.delete_webhook == delete_webhook && text_view(end.reply) == reply && text_view(
        end.error,
    ) == error
}

/// The job the scheduler is given: the plan's cadence and zone, posting
/// through the webhook just read.
pub open spec fn job_for(job: ReportJob, setup: ScheduleSetup, url: Seq<char>) -> bool {
    &&& job.guild_row_id == setup.guild_row
    &&& job.schedule_name@ == setup.schedule_name@
    &&& job.schedule@ == setup.cadence.cron@
    &&& text_view(job.schedule_label) == Some(setup.cadence.label@)
    &&& job.timezone@ == setup.zone@
    &&& job.webhook_url@ == url
    &&& same_text(job.map_name, setup.target)
    &&& job.draw_text == setup.draw_text
}

/// The row that is written, once the scheduler has the job.
pub open spec fn row_for(row: NewJob, setup: ScheduleSetup, url: Seq<char>, job_id: Seq<char>) -> bool {
    &&& row.guild == setup.guild_row
    &&& row.job_name@ == setup.schedule_name@
    &&& row.schedule@ == setup.cadence.cron@
    &&& text_view(row.schedule_label) == Some(setup.cadence.label@)
    &&& row.timezone@ == setup.zone@
    &&& row.webhook_url@ == url
    &&& same_text(row.map_name, setup.target)
    &&& row.draw_text == setup.draw_text
    &&& row.job_id@ == job_id
}

/// The transition table of a setup.
pub open spec fn setup_follows(
    setup: ScheduleSetup,
    event: SetupEvent,
    next: ScheduleSetup,
    action: SetupAction,
) -> bool {
    &&& next.guild_row == setup.guild_row
    &&& next.schedule_name == setup.schedule_name
    &&& next.channel_id == setup.channel_id
    &&& next.draw_text == setup.draw_text
    &&& next.target == setup.target
    &&& next.zone == setup.zone
    &&& next.cadence == setup.cadence
    &&& next.fires == setup.fires
    &&& match (setup.stage, event) {
        (_, SetupEvent::Failed(e)) => next.stage is Finished && ends_with(
            action,
            None,
            false,
            None,
            Some(e@),
        ),
        (SetupStage::Start, SetupEvent::Begin) => next.stage is CheckingName && action
            is CheckName,
        (SetupStage::CheckingName, SetupEvent::NameChecked(taken)) => if taken {
            next.stage is Finished && ends_with(
                action,
                None,
                false,
                Some(duplicate_name_text(setup.schedule_name@)),
                None,
            )
        } else {
            next.stage is ResolvingWebhook && action is ResolveWebhook
        },
        (SetupStage::ResolvingWebhook, SetupEvent::WebhookResolved(resolved)) => match resolved {
            None => next.stage is Finished && ends_with(
                action,
                None,
                false,
                Some(no_webhook_text(setup.channel_id)),
                None,
            ),
            Some(created) => next.stage == (SetupStage::ReadingUrl { created }) && action
                is ReadUrl,
        },
        (SetupStage::ReadingUrl { created }, SetupEvent::UrlRead(read)) => match read {
            Err(e) => next.stage is Finished && ends_with(action, None, created, None, Some(e@)),
            Ok(url) => {
                &&& next.stage matches SetupStage::Scheduling { created: c, url: u } && c == created
                    && u@ == url@
                &&& action matches SetupAction::Schedule(job) && job_for(job, setup, url@)
            },
        },
        (SetupStage::Scheduling { created, url }, SetupEvent::Scheduled(outcome)) => match outcome {
            Err(_) => next.stage is Finished && ends_with(
                action,
                None,
                created,
                Some(SCHEDULER_REJECTED@),
                None,
            ),
            Ok(id) => {
                &&& next.stage matches SetupStage::Persisting { created: c, job_id } && c
                    == created && job_id@ == id@
                &&& action matches SetupAction::Persist(row) && row_for(row, setup, url@, id@)
            },
        },
        (SetupStage::Persisting { created, job_id }, SetupEvent::Persisted(saved)) => if saved {
            next.stage is Finished && ends_with(
                action,
                None,
                false,
                Some(
                    created_message_spec(
                        setup.schedule_name@,
                        setup.cadence.label@,
                        setup.zone@,
                        setup.channel_id as nat,
                        setup.fires@,
                    ),
                ),
                None,
            )
        } else {
            next.stage is Finished && ends_with(
                action,
                Some(job_id@),
                created,
                Some(NOT_SAVED@),
                None,
            )
        },
        _ => next.stage is Finished && ends_with(action, None, false, None, None),
    }
}

fn finish(
    unschedule: Option<String>,
    delete_webhook: bool,
    reply: Option<String>,
    error: Option<String>,
) -> (action: SetupAction)
    ensures
        ends_with(
            action,
            text_view(unschedule),
            delete_webhook,
            text_view(reply),
            text_view(error),
        ),
{
    SetupAction::Finish(SetupEnd { unschedule, delete_webhook, reply, error })
}

fn copy_text(text: &Option<String>) -> (copy: Option<String>)
    ensures
        text_view(copy) == text_view(*text),
{
    match text {
        Some(t) => Some(t.clone()),
        None => None,
    }
}

impl ScheduleSetup {
    /// A setup for a ready plan.
    pub fn new(
        guild_row: i64,
        schedule_name: String,
        channel_id: u64,
        draw_text: bool,
        target: Option<String>,
        zone: String,
        cadence: Cadence,
        fires: Vec<i64>,
    ) -> (setup: ScheduleSetup)
        ensures
            setup.guild_row == guild_row,
            setup.schedule_name == schedule_name,
            setup.channel_id == channel_id,
            setup.draw_text == draw_text,
            setup.target == target,
            setup.zone == zone,
            setup.cadence == cadence,
            setup.fires == fires,
            setup.stage is Start,
    {
        ScheduleSetup {
            guild_row,
            schedule_name,
            channel_id,
            draw_text,
            target,
            zone,
            cadence,
            fires,
            stage: SetupStage::Start,
        }
    }

    /// Takes the outcome of the last action and says what to do next.
    pub fn step(self, event: SetupEvent) -> (next: (ScheduleSetup, SetupAction))
        requires
            self.fires@.len() > 0,
        ensures
            setup_follows(self, event, next.0, next.1),
            next.0.fires@.len() > 0,
    {
        let ScheduleSetup {
            guild_row,
            schedule_name,
            channel_id,
            draw_text,
            target,
            zone,
            cadence,
            fires,
            stage,
        } = self;
        let (next, action) = match event {
            SetupEvent::Failed(e) => (SetupStage::Finished, finish(None, false, None, Some(e))),
            event => match (stage, event) {
                (SetupStage::Start, SetupEvent::Begin) => (
                    SetupStage::CheckingName,
                    SetupAction::CheckName,
                ),
                (SetupStage::CheckingName, SetupEvent::NameChecked(taken)) => {
                    if taken {
                        (
                            SetupStage::Finished,
                            finish(None, false, Some(duplicate_name(schedule_name.as_str())), None),
                        )
                    } else {
                        (SetupStage::ResolvingWebhook, SetupAction::ResolveWebhook)
                    }
                },
                (SetupStage::ResolvingWebhook, SetupEvent::WebhookResolved(resolved)) => {
                    match resolved {
                        None => (
                            SetupStage::Finished,
                            finish(None, false, Some(no_webhook(channel_id)), None),
                        ),
                        Some(created) => (SetupStage::ReadingUrl { created }, SetupAction::ReadUrl),
                    }
                },
                (SetupStage::ReadingUrl { created }, SetupEvent::UrlRead(read)) => {
                    match read {
                        Err(e) => (SetupStage::Finished, finish(None, created, None, Some(e))),
                        Ok(url) => {
                            let job = ReportJob {
                                guild_row_id: guild_row,
                                schedule_name: schedule_name.clone(),
                                schedule: cadence.cron.clone(),
                                schedule_label: Some(cadence.label.clone()),
                                timezone: zone.clone(),
                                webhook_url: url.clone(),
                                map_name: copy_text(&target),
                                draw_text,
                            };
                            (SetupStage::Scheduling { created, url }, SetupAction::Schedule(job))
                        },
                    }
                },
                (SetupStage::Scheduling { created, url }, SetupEvent::Scheduled(outcome)) => {
                    match outcome {
                        Err(_) => (
                            SetupStage::Finished,
                            finish(None, created, Some(String::from_str(SCHEDULER_REJECTED)), None),
                        ),
                        Ok(id) => {
                            let row = NewJob {
                                guild: guild_row,
                                job_name: schedule_name.clone(),
                                schedule: cadence.cron.clone(),
                                schedule_label: Some(cadence.label.clone()),
                                timezone: zone.clone(),
                                webhook_url: url,
                                map_name: copy_text(&target),
                                draw_text,
                                job_id: id.clone(),
                            };
                            (
                                SetupStage::Persisting { created, job_id: id },
                                SetupAction::Persist(row),
                            )
                        },
                    }
                },
                (SetupStage::Persisting { created, job_id }, SetupEvent::Persisted(saved)) => {
                    if saved {
                        let text = created_message(
                            schedule_name.as_str(),
                            cadence.label.as_str(),
                            zone.as_str(),
                            channel_id,
                            fires.as_slice(),
                        );
                        (SetupStage::Finished, finish(None, false, Some(text), None))
                    } else {
                        (
                            SetupStage::Finished,
                            finish(Some(job_id), created, Some(String::from_str(NOT_SAVED)), None),
                        )
                    }
                },
                _ => (SetupStage::Finished, finish(None, false, None, None)),
            },
        };
        (
            ScheduleSetup {
                guild_row,
                schedule_name,
                channel_id,
                draw_text,
                target,
                zone,
                cadence,
                fires,
                stage: next,
            },
            action,
        )
    }
}

} // verus!

verus! {

/// Schedule first, persist second: a row is written only for a job the
/// scheduler has already accepted, so a rejected schedule can't leave an
/// orphan row behind.
pub proof fn rows_follow_the_scheduler(
    setup: ScheduleSetup,
    event: SetupEvent,
    next: ScheduleSetup,
    action: SetupAction,
)
    requires
        setup_follows(setup, event, next, action),
        action is Persist,
    ensures
        setup.stage is Scheduling,
        event matches SetupEvent::Scheduled(outcome) && outcome is Ok,
{
}

/// Only a webhook this run created is ever deleted: one the channel already
/// had belongs to the server's other reports.
pub proof fn found_webhooks_are_kept(
    setup: ScheduleSetup,
    event: SetupEvent,
    next: ScheduleSetup,
    action: SetupAction,
)
    requires
        setup_follows(setup, event, next, action),
        action matches SetupAction::Finish(end) && end.delete_webhook,
    ensures
        (setup.stage matches SetupStage::ReadingUrl { created } && created) || (setup.stage matches SetupStage::Scheduling { created, .. } && created) || (setup.stage matches SetupStage::Persisting { created, .. } && created),
{
}

/// A failure after the job is registered takes it back down: a save that
/// fails unschedules the job, and a job is only ever unscheduled then.
pub proof fn failed_saves_are_rolled_back(
    setup: ScheduleSetup,
    event: SetupEvent,
    next: ScheduleSetup,
    action: SetupAction,
)
    requires
        setup_follows(setup, event, next, action),
    ensures
        (setup.stage is Persisting && event == SetupEvent::Persisted(false)) ==> ends_with(
            action,
            Some(setup.stage->job_id@),
            setup.stage->Persisting_created,
            Some(NOT_SAVED@),
            None,
        ),
        (action matches SetupAction::Finish(end) && end.unschedule is Some) ==> (setup.stage
            is Persisting && event == SetupEvent::Persisted(false)),
{
}

} // verus!
