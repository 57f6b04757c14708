//! Scheduled map reports: what a job carries, what each tick decides, and
//! what the scheduler is handed. The waiting, the fetching and the posting are
//! done by whoever drives a [`ReportTick`]; every choice between them is made
//! here.
use vstd::prelude::*;
use vstd::string::*;

use crate::db::{GuildData, JobWithGuild};
use crate::embed::{plain, plain_embed, text_view, Embed, EmbedShape};
use crate::entitlement::{scheduling, FullMapScheduling};
use crate::regions::{display_name, display_name_spec};
use crate::schedule::{describe, schedule_to_cron, scheduler_cron, timezone_or_utc, timezone_spec};
use crate::text::{decimal, push_decimal, push_signed_decimal, push_str, signed_decimal, string_from_chars};
use crate::timestamp::{format_timestamp, timestamp_text};

verus! {

/// Everything a tick needs. Carries the owning guild explicitly so a job can
/// never render another guild's shard.
#[derive(Debug)]
pub struct ReportJob {
    /// `guilds.id`, the surrogate row id.
    pub guild_row_id: i64,
    pub schedule_name: String,
    /// The expression the scheduler runs — generated from the user's choices,
    /// or, on a row that predates that, the phrase they typed.
    pub schedule: String,
    /// The cadence in words, for the embed. `None` on rows older than labels.
    pub schedule_label: Option<String>,
    /// IANA name the expression is interpreted in.
    pub timezone: String,
    pub webhook_url: String,
    /// The region to render, or `None` for the whole world map. Only the
    /// full-map variant is gated.
    pub map_name: Option<String>,
    pub draw_text: bool,
}

pub open spec fn same_text(a: Option<String>, b: Option<String>) -> bool {
    text_view(a) == text_view(b)
}

fn copy_text(text: &Option<String>) -> (copy: Option<String>)
    ensures
        same_text(copy, *text),
{
    match text {
        Some(t) => Some(t.clone()),
        None => None,
    }
}

impl ReportJob {
    /// The job a stored row describes, field for field.
    pub fn from_row(row: &JobWithGuild) -> (job: ReportJob)
        ensures
            job.guild_row_id == row.guild_row_id,
            job.schedule_name@ == row.job_name@,
            job.schedule@ == row.schedule@,
            same_text(job.schedule_label, row.schedule_label),
            job.timezone@ == row.timezone@,
            job.webhook_url@ == row.webhook_url@,
            same_text(job.map_name, row.map_name),
            job.draw_text == row.draw_text,
    {
        ReportJob {
            guild_row_id: row.guild_row_id,
            schedule_name: row.job_name.clone(),
            schedule: row.schedule.clone(),
            schedule_label: copy_text(&row.schedule_label),
            timezone: row.timezone.clone(),
            webhook_url: row.webhook_url.clone(),
            map_name: copy_text(&row.map_name),
            draw_text: row.draw_text,
        }
    }
}

// ---------------------------------------------------------------------------
// Handing a job to the scheduler
// ---------------------------------------------------------------------------

/// Why a job couldn't be registered.
pub enum CronError {
    /// The stored schedule, which the scheduler couldn't read.
    BadSchedule(String),
    /// What the scheduler said when it refused the job.
    Scheduler(String),
}

impl CronError {
    pub fn message(&self) -> (text: String)
        ensures
            text@ == match self {
                CronError::BadSchedule(s) => "the schedule '"@ + s@
                    + "' isn't a phrase the scheduler understands"@,
                CronError::Scheduler(s) => "the scheduler rejected the job: "@ + s@,
            },
    {
        let mut out: Vec<char> = Vec::new();
        match self {
            CronError::BadSchedule(s) => {
                push_str(&mut out, "the schedule '");
                push_str(&mut out, s.as_str());
                push_str(&mut out, "' isn't a phrase the scheduler understands");
            },
            CronError::Scheduler(s) => {
                push_str(&mut out, "the scheduler rejected the job: ");
                push_str(&mut out, s.as_str());
            },
        }
        string_from_chars(&out)
    }
}

/// What the scheduler runs a job on: its cron expression, and the zone that
/// expression is read in.
///
/// An unknown zone falls back to UTC rather than refusing the row: the stored
/// zone came out of the same list the autocomplete offers, so the only way to
/// get here is a timezone database that no longer carries a zone it used to,
/// and a report an hour out beats a report that stops.
pub fn job_trigger(job: &ReportJob) -> (trigger: Result<(String, String), CronError>)
    ensures
        match scheduler_cron(job.schedule@) {
            None => trigger matches Err(CronError::BadSchedule(s)) && s@ == job.schedule@,
            Some(cron) => trigger matches Ok((c, z)) && c@ == cron && z@ == match timezone_spec(
                job.timezone@,
            ) {
                Ok(canonical) => canonical,
                Err(_) => "UTC"@,
            },
        },
{
    let cron = match schedule_to_cron(job.schedule.as_str()) {
        Some(cron) => cron,
        None => {
            return Err(CronError::BadSchedule(job.schedule.clone()));
        },
    };
    let zone = timezone_or_utc(job.timezone.as_str());
    Ok((cron, zone))
}

/// The number a scheduler job id stands for, or `None` when the text isn't a
/// UUID; named for what `uuid::Uuid::parse_str` makes of the text.
pub uninterp spec fn uuid_value(text: Seq<char>) -> Option<u128>;

/// `uuid::Uuid::parse_str`, as the number the id stands for. Claims only that
/// the result is that parser's answer for this text.
#[verifier::external_body]
fn parse_uuid(text: &str) -> (id: Option<u128>)
    ensures
        id == uuid_value(text@),
{
    match uuid::Uuid::parse_str(text) {
        Ok(id) => Some(id.as_u128()),
        Err(_) => None,
    }
}

/// The scheduler id stored on a row, if there is one and it reads as a UUID.
/// A row without one, or with one that doesn't parse, has nothing to remove:
/// the job is gone either way.
pub fn job_uuid(job_id: Option<&str>) -> (id: Option<u128>)
    ensures
        id == match job_id {
            Some(text) => uuid_value(text@),
            None => None,
        },
{
    match job_id {
        Some(text) => parse_uuid(text),
        None => None,
    }
}

/// When the housekeeping jobs run, as six-field cron expressions: the region
/// lists hourly, then the nightly chores spread out so no two touch the disk
/// in the same minute.
pub const MAP_REFRESH_CRON: &'static str = "0 0 * * * *";
pub const REQUEST_PURGE_CRON: &'static str = "0 30 3 * * *";
pub const LOG_PRUNE_CRON: &'static str = "0 50 3 * * *";
pub const JOB_REBUILD_CRON: &'static str = "0 20 4 * * *";

/// What the log says once every stored schedule has been registered again:
/// at startup, or in the nightly rebuild that re-reads each zone's offset.
pub fn restore_summary(rebuild: bool, restored: u64, total: u64) -> (line: String)
    ensures
        line@ == if total == 0 {
            "no scheduled reports to restore"@
        } else if rebuild {
            "rebuilt "@ + decimal(restored as nat) + "/"@ + decimal(total as nat)
                + " scheduled reports for their timezones"@
        } else {
            "restored "@ + decimal(restored as nat) + "/"@ + decimal(total as nat)
                + " scheduled reports"@
        },
{
    if total == 0 {
        return String::from_str("no scheduled reports to restore");
    }
    let mut out: Vec<char> = Vec::new();
    if rebuild {
        push_str(&mut out, "rebuilt ");
    } else {
        push_str(&mut out, "restored ");
    }
    push_decimal(&mut out, restored);
    push_str(&mut out, "/");
    push_decimal(&mut out, total);
    if rebuild {
        push_str(&mut out, " scheduled reports for their timezones");
    } else {
        push_str(&mut out, " scheduled reports");
    }
    string_from_chars(&out)
}

// ---------------------------------------------------------------------------
// What a tick says
// ---------------------------------------------------------------------------

/// The first line of every message a tick posts: which map it is about.
pub open spec fn target_text(map_name: Option<Seq<char>>) -> Seq<char> {
    match map_name {
        Some(name) => "Region: "@ + display_name_spec(name),
        None => "Region: the whole world map"@,
    }
}

pub fn report_target(job: &ReportJob) -> (target: String)
    ensures
        target@ == target_text(text_view(job.map_name)),
{
    match &job.map_name {
        Some(name) => {
            let mut out: Vec<char> = Vec::new();
            push_str(&mut out, "Region: ");
            let shown = display_name(name.as_str());
            push_str(&mut out, shown.as_str());
            string_from_chars(&out)
        },
        None => String::from_str("Region: the whole world map"),
    }
}

/// The title every message of one schedule carries.
pub open spec fn report_title(schedule_name: Seq<char>) -> Seq<char> {
    "Scheduled Report: "@ + schedule_name
}

/// What the placeholder says is slow. A full map is 53 region fetches and a
/// composite, so it says so — a channel that knows it's waiting on the world
/// map doesn't read ten seconds as a broken bot.
pub open spec fn placeholder_detail(full_map: bool) -> Seq<char> {
    if full_map {
        "Fetching the latest war data for all 53 regions and building the world map. This takes a few seconds…"@
    } else {
        "Fetching the latest war data and rendering the map…"@
    }
}

/// The "working on it" message, in grey so the finished report's green is
/// the thing that reads as done.
pub open spec fn placeholder_shape(schedule_name: Seq<char>, map_name: Option<Seq<char>>) -> EmbedShape {
    plain_embed(
        report_title(schedule_name),
        (150u8, 150u8, 150u8),
        target_text(map_name) + "\n"@ + placeholder_detail(map_name is None),
        "Started at"@,
    )
}

fn title_for(job: &ReportJob) -> (title: String)
    ensures
        title@ == report_title(job.schedule_name@),
{
    let mut out: Vec<char> = Vec::new();
    push_str(&mut out, "Scheduled Report: ");
    push_str(&mut out, job.schedule_name.as_str());
    string_from_chars(&out)
}

pub fn placeholder_embed(job: &ReportJob) -> (embed: Embed)
    ensures
        embed@ == placeholder_shape(job.schedule_name@, text_view(job.map_name)),
{
    let target = report_target(job);
    let mut out: Vec<char> = Vec::new();
    push_str(&mut out, target.as_str());
    push_str(&mut out, "\n");
    match &job.map_name {
        Some(_) => push_str(&mut out, "Fetching the latest war data and rendering the map…"),
        None => push_str(
            &mut out,
            "Fetching the latest war data for all 53 regions and building the world map. This takes a few seconds…",
        ),
    }
    plain(title_for(job), (150, 150, 150), string_from_chars(&out), String::from_str("Started at"))
}

/// The placeholder turned into a failure notice: the schedule is named, and
/// the channel is told the next run will try again, which is the difference
/// between a transient API failure and a bot that looks like it stopped.
pub open spec fn failure_shape(schedule_name: Seq<char>) -> EmbedShape {
    plain_embed(
        report_title(schedule_name),
        (220u8, 70u8, 70u8),
        "Couldn't fetch the war data for this report — the Foxhole API didn't answer in time, or the map couldn't be rendered. The schedule is untouched and the next run will try again."@,
        "Failed at"@,
    )
}

pub fn failure_embed(job: &ReportJob) -> (embed: Embed)
    ensures
        embed@ == failure_shape(job.schedule_name@),
{
    plain(
        title_for(job),
        (220, 70, 70),
        String::from_str(
            "Couldn't fetch the war data for this report — the Foxhole API didn't answer in time, or the map couldn't be rendered. The schedule is untouched and the next run will try again.",
        ),
        String::from_str("Failed at"),
    )
}

/// Said once to a channel whose full-map schedule lost its approval. It says
/// *withdrawn*: a full-map schedule can only have been created while the
/// guild was approved, so reaching it means an approval was taken back.
pub open spec fn withdrawal_shape(schedule_name: Seq<char>) -> EmbedShape {
    plain_embed(
        "Full-Map Approval Withdrawn: "@ + schedule_name,
        (255u8, 170u8, 0u8),
        "This server's approval to run **scheduled** full-map reports has been withdrawn, so this schedule is paused rather than deleted — it resumes on its own if approval is granted again.\n\nNothing else is affected: `/full-map` still renders the world map on demand for everyone, and single-region schedules are unchanged. To ask for it back, run `/request-full-map-schedule`."@,
        "Paused at"@,
    )
}

pub fn withdrawal_embed(job: &ReportJob) -> (embed: Embed)
    ensures
        embed@ == withdrawal_shape(job.schedule_name@),
{
    let mut title: Vec<char> = Vec::new();
    push_str(&mut title, "Full-Map Approval Withdrawn: ");
    push_str(&mut title, job.schedule_name.as_str());
    plain(
        string_from_chars(&title),
        (255, 170, 0),
        String::from_str(
            "This server's approval to run **scheduled** full-map reports has been withdrawn, so this schedule is paused rather than deleted — it resumes on its own if approval is granted again.\n\nNothing else is affected: `/full-map` still renders the world map on demand for everyone, and single-region schedules are unchanged. To ask for it back, run `/request-full-map-schedule`.",
        ),
        String::from_str("Paused at"),
    )
}

/// The name the rendered image is uploaded under.
pub open spec fn report_file_name(map_name: Option<Seq<char>>) -> Seq<char> {
    match map_name {
        Some(name) => name + ".png"@,
        None => "full-map.png"@,
    }
}

pub fn file_name_for(job: &ReportJob) -> (name: String)
    ensures
        name@ == report_file_name(text_view(job.map_name)),
{
    match &job.map_name {
        Some(name) => {
            let mut out: Vec<char> = Vec::new();
            push_str(&mut out, name.as_str());
            push_str(&mut out, ".png");
            string_from_chars(&out)
        },
        None => String::from_str("full-map.png"),
    }
}

/// The body of a finished report. The next run is given in Discord's own
/// timestamp markup, so every reader sees it in *their* timezone.
pub open spec fn report_body(
    target: Seq<char>,
    described: Seq<char>,
    updated: Seq<char>,
    next_tick: Option<i64>,
) -> Seq<char> {
    let next = match next_tick {
        Some(n) => "\nNext Scheduled Update: <t:"@ + signed_decimal(n as int) + ":F> (<t:"@
            + signed_decimal(n as int) + ":R>)"@,
        None => Seq::empty(),
    };
    target + "\nSchedule: "@ + described + "\nLast API Update: "@ + updated + next
}

pub fn report_description(
    target: &str,
    described: &str,
    updated: &str,
    next_tick: Option<i64>,
) -> (text: String)
    ensures
        text@ == report_body(target@, described@, updated@, next_tick),
{
    let mut out: Vec<char> = Vec::new();
    push_str(&mut out, target);
    push_str(&mut out, "\nSchedule: ");
    push_str(&mut out, described);
    push_str(&mut out, "\nLast API Update: ");
    push_str(&mut out, updated);
    match next_tick {
        Some(n) => {
            push_str(&mut out, "\nNext Scheduled Update: <t:");
            push_signed_decimal(&mut out, n);
            push_str(&mut out, ":F> (<t:");
            push_signed_decimal(&mut out, n);
            push_str(&mut out, ":R>)");
        },
        None => {},
    }
    string_from_chars(&out)
}

/// How a stored schedule is described in its report.
pub open spec fn schedule_words(job: ReportJob) -> Seq<char> {
    let shown = match text_view(job.schedule_label) {
        Some(l) => l,
        None => job.schedule@,
    };
    shown + " ("@ + job.timezone@ + ")"@
}

/// The finished report: green, with the render attached.
pub open spec fn report_shape(job: ReportJob, last_updated: i64, next_tick: Option<i64>) -> EmbedShape {
    EmbedShape {
        title: Some(report_title(job.schedule_name@)),
        color: (0u8, 255u8, 0u8),
        description: Some(
            report_body(
                target_text(text_view(job.map_name)),
                schedule_words(job),
                timestamp_text(last_updated),
                next_tick,
            ),
        ),
        fields: Seq::empty(),
        image: Some("attachment://"@ + report_file_name(text_view(job.map_name))),
        footer: Some("Rendered at"@),
    }
}

/// A rendered report, ready to post: its embed, and the name its image is
/// attached under.
pub struct Report {
    pub embed: Embed,
    pub file_name: String,
}

pub open spec fn report_matches(
    report: Report,
    job: ReportJob,
    last_updated: i64,
    next_tick: Option<i64>,
) -> bool {
    &&& report.embed@ == report_shape(job, last_updated, next_tick)
    &&& report.file_name@ == report_file_name(text_view(job.map_name))
}

pub fn build_report(job: &ReportJob, last_updated: i64, next_tick: Option<i64>) -> (report: Report)
    ensures
        report_matches(report, *job, last_updated, next_tick),
{
    let target = report_target(job);
    let label = match &job.schedule_label {
        Some(l) => Some(l.as_str()),
        None => None,
    };
    let described = describe(label, job.schedule.as_str(), job.timezone.as_str());
    let updated = format_timestamp(last_updated);
    let description = report_description(
        target.as_str(),
        described.as_str(),
        updated.as_str(),
        next_tick,
    );
    let file_name = file_name_for(job);
    let mut image: Vec<char> = Vec::new();
    push_str(&mut image, "attachment://");
    push_str(&mut image, file_name.as_str());
    let embed = Embed {
        title: Some(title_for(job)),
        color: (0, 255, 0),
        description: Some(description),
        fields: Vec::new(),
        image: Some(string_from_chars(&image)),
        footer: Some(String::from_str("Rendered at")),
    };
    assert(embed@.fields =~= Seq::<(Seq<char>, Seq<char>, bool)>::empty());
    Report { embed, file_name }
}

// ---------------------------------------------------------------------------
// One tick, step by step
// ---------------------------------------------------------------------------

/// What to render, and how.
pub struct RenderRequest {
    /// The region, or `None` for the whole world map.
    pub map_name: Option<String>,
    pub draw_text: bool,
    pub frontline: bool,
    /// Shade each hex by who holds it. Only ever on for the full map.
    pub faction_tint: bool,
}

/// The render a tick asks for: the guild's frontline choice on either map,
/// and its tint choice only on the world map.
pub open spec fn render_request_for(request: RenderRequest, job: ReportJob, guild: GuildData) -> bool {
    &&& same_text(request.map_name, job.map_name)
    &&& request.draw_text == job.draw_text
    &&& request.frontline == guild.frontline
    &&& request.faction_tint == (job.map_name is None && guild.full_map_faction_tint)
}

/// Where a tick is.
pub enum TickStage {
    /// Nothing done yet.
    Start,
    /// Waiting for the owning guild's row, re-read every tick so a shard or
    /// visibility change is picked up without a restart.
    AwaitingGuild,
    /// Waiting for the webhook to be opened.
    AwaitingWebhook { guild: GuildData },
    /// A full-map schedule without approval: waiting to learn whether the
    /// channel was already told.
    AwaitingEntry,
    /// Waiting for the withdrawal notice to go out.
    AwaitingNotice,
    /// Waiting for the notice to be recorded as given.
    AwaitingMark,
    /// Waiting for the placeholder; the render to ask for next.
    AwaitingPlaceholder { request: RenderRequest },
    /// Waiting for the render; the placeholder's message id, if it posted.
    AwaitingRender { placeholder: Option<u64> },
    /// The render failed and the placeholder is being turned into a notice.
    AwaitingFailureNotice { error: String },
    /// The placeholder is being edited into the report.
    AwaitingEdit { placeholder: u64 },
    /// The edit failed; the report is being posted as a new message.
    AwaitingFreshPost { placeholder: u64 },
    /// The stale placeholder is being deleted.
    AwaitingDelete,
    /// The report is being posted (there was no placeholder to edit).
    AwaitingPost,
    Finished,
}

/// What the driver reports back after doing what it was asked.
pub enum TickEvent {
    Begin,
    GuildLoaded(Option<GuildData>),
    WebhookOpened,
    /// The stored row's "already told" flag, or `None` if the row is gone.
    EntryRead(Option<bool>),
    NoticePosted,
    Marked,
    /// The placeholder's message id, or `None` if it couldn't be posted.
    PlaceholderPosted(Option<u64>),
    /// The render's last-updated time (API milliseconds), or why it failed.
    Rendered(Result<i64, String>),
    FailureShown,
    /// Whether editing the placeholder into the report worked.
    Edited(bool),
    Posted,
    Deleted,
    /// A step that could not be done; the tick stops here.
    Failed(String),
}

/// How a tick ended.
pub enum TickEnd {
    /// The report reached the channel.
    Delivered,
    /// The job's guild is gone.
    NoGuild,
    /// A full-map schedule without approval: nothing rendered.
    Paused,
    /// A step failed; its reason.
    Failed(String),
    /// An event arrived that the stage wasn't waiting for.
    OutOfOrder,
}

/// What the driver should do next.
pub enum TickAction {
    LoadGuild,
    OpenWebhook,
    /// Read the job's stored row, to see whether the channel was told.
    ReadEntry,
    PostNotice(Embed),
    MarkNotified,
    PostPlaceholder(Embed),
    Render(RenderRequest),
    /// Edit the placeholder into this failure notice.
    ShowFailure { placeholder: u64, embed: Embed },
    /// Edit the placeholder into the report.
    EditIntoReport { placeholder: u64, report: Report },
    /// Post the report as a new message.
    Post(Report),
    /// The edit failed: post the same report as a new message.
    PostFresh,
    DeletePlaceholder(u64),
    Finish(TickEnd),
}

/// One scheduled report's tick in progress.
pub struct ReportTick {
    pub job: ReportJob,
    /// When the scheduler will run this job next, as Unix seconds.
    pub next_tick: Option<i64>,
    pub stage: TickStage,
}

pub open spec fn finished_with(next: TickStage, action: TickAction, end: TickEnd) -> bool {
    next is Finished && action == TickAction::Finish(end)
}

/// The tick ends, having failed for this reason.
pub open spec fn failed_with(next: TickStage, action: TickAction, reason: Seq<char>) -> bool {
    &&& next is Finished
    &&& action matches TickAction::Finish(TickEnd::Failed(r))
    &&& r@ == reason
}

/// The transition table of a tick.
pub open spec fn tick_follows(
    job: ReportJob,
    next_tick: Option<i64>,
    stage: TickStage,
    event: TickEvent,
    next: TickStage,
    action: TickAction,
) -> bool {
    match event {
        TickEvent::Failed(reason) => failed_with(next, action, reason@),
        _ => match (stage, event) {
            (TickStage::Start, TickEvent::Begin) => next is AwaitingGuild && action is LoadGuild,
            (TickStage::AwaitingGuild, TickEvent::GuildLoaded(None)) => finished_with(
                next,
                action,
                TickEnd::NoGuild,
            ),
            (TickStage::AwaitingGuild, TickEvent::GuildLoaded(Some(guild))) => next
                == TickStage::AwaitingWebhook { guild } && action is OpenWebhook,
            (TickStage::AwaitingWebhook { guild }, TickEvent::WebhookOpened) => if job.map_name
                is None && !guild.full_map_approved {
                next is AwaitingEntry && action is ReadEntry
            } else {
                &&& next matches TickStage::AwaitingPlaceholder { request }
                    && render_request_for(request, job, guild)
                &&& action matches TickAction::PostPlaceholder(e) && e@ == placeholder_shape(
                    job.schedule_name@,
                    text_view(job.map_name),
                )
            },
            (TickStage::AwaitingEntry, TickEvent::EntryRead(told)) => if told == Some(true) {
                finished_with(next, action, TickEnd::Paused)
            } else {
                &&& next is AwaitingNotice
                &&& action matches TickAction::PostNotice(e) && e@ == withdrawal_shape(
                    job.schedule_name@,
                )
            },
            (TickStage::AwaitingNotice, TickEvent::NoticePosted) => next is AwaitingMark
                && action is MarkNotified,
            (TickStage::AwaitingMark, TickEvent::Marked) => finished_with(
                next,
                action,
                TickEnd::Paused,
            ),
            (
                TickStage::AwaitingPlaceholder { request },
                TickEvent::PlaceholderPosted(placeholder),
            ) => next == TickStage::AwaitingRender { placeholder } && action
                == TickAction::Render(request),
            (TickStage::AwaitingRender { placeholder }, TickEvent::Rendered(Err(error))) => match placeholder {
                Some(id) => {
                    &&& next matches TickStage::AwaitingFailureNotice { error: e } && e@ == error@
                    &&& action matches TickAction::ShowFailure { placeholder: p, embed } && p == id
                        && embed@ == failure_shape(job.schedule_name@)
                },
                None => failed_with(next, action, error@),
            },
            (TickStage::AwaitingRender { placeholder }, TickEvent::Rendered(Ok(updated))) => match placeholder {
                Some(id) => {
                    &&& next == TickStage::AwaitingEdit { placeholder: id }
                    &&& action matches TickAction::EditIntoReport { placeholder: p, report } && p
                        == id && report_matches(report, job, updated, next_tick)
                },
                None => {
                    &&& next is AwaitingPost
                    &&& action matches TickAction::Post(report) && report_matches(
                        report,
                        job,
                        updated,
                        next_tick,
                    )
                },
            },
            (TickStage::AwaitingFailureNotice { error }, TickEvent::FailureShown) => failed_with(
                next,
                action,
                error@,
            ),
            (TickStage::AwaitingEdit { placeholder }, TickEvent::Edited(ok)) => if ok {
                finished_with(next, action, TickEnd::Delivered)
            } else {
                next == TickStage::AwaitingFreshPost { placeholder } && action is PostFresh
            },
            (TickStage::AwaitingFreshPost { placeholder }, TickEvent::Posted) => next
                is AwaitingDelete && action == TickAction::DeletePlaceholder(placeholder),
            (TickStage::AwaitingDelete, TickEvent::Deleted) => finished_with(
                next,
                action,
                TickEnd::Delivered,
            ),
            (TickStage::AwaitingPost, TickEvent::Posted) => finished_with(
                next,
                action,
                TickEnd::Delivered,
            ),
            _ => finished_with(next, action, TickEnd::OutOfOrder),
        },
    }
}

impl ReportTick {
    pub fn new(job: ReportJob, next_tick: Option<i64>) -> (tick: ReportTick)
        ensures
            tick.job == job,
            tick.next_tick == next_tick,
            tick.stage is Start,
    {
        ReportTick { job, next_tick, stage: TickStage::Start }
    }

    /// Takes the outcome of the last action and says what to do next.
    ///
    /// The approval gate is re-read at every tick, not trusted from when the
    /// schedule was created, and it is asked before the placeholder: a dormant
    /// schedule posts the withdrawal notice, once, and nothing else. Otherwise
    /// the placeholder becomes the report — one message per run — and a render
    /// that failed turns it into a failure notice rather than leaving
    /// "fetching" in the channel until the next run.
    pub fn step(self, event: TickEvent) -> (next: (ReportTick, TickAction))
        ensures
            next.0.job == self.job,
            next.0.next_tick == self.next_tick,
            tick_follows(self.job, self.next_tick, self.stage, event, next.0.stage, next.1),
    {
        let ReportTick { job, next_tick, stage } = self;
        let (next, action) = match event {
            TickEvent::Failed(reason) => (
                TickStage::Finished,
                TickAction::Finish(TickEnd::Failed(reason)),
            ),
            event => match (stage, event) {
                (TickStage::Start, TickEvent::Begin) => (
                    TickStage::AwaitingGuild,
                    TickAction::LoadGuild,
                ),
                (TickStage::AwaitingGuild, TickEvent::GuildLoaded(None)) => (
                    TickStage::Finished,
                    TickAction::Finish(TickEnd::NoGuild),
                ),
                (TickStage::AwaitingGuild, TickEvent::GuildLoaded(Some(guild))) => (
                    TickStage::AwaitingWebhook { guild },
                    TickAction::OpenWebhook,
                ),
                (TickStage::AwaitingWebhook { guild }, TickEvent::WebhookOpened) => {
                    let full_map = job.map_name.is_none();
                    if full_map && !scheduling().is_allowed(&guild) {
                        (TickStage::AwaitingEntry, TickAction::ReadEntry)
                    } else {
                        let request = RenderRequest {
                            map_name: copy_text(&job.map_name),
                            draw_text: job.draw_text,
                            frontline: guild.frontline,
                            faction_tint: full_map && guild.full_map_faction_tint,
                        };
                        (
                            TickStage::AwaitingPlaceholder { request },
                            TickAction::PostPlaceholder(placeholder_embed(&job)),
                        )
                    }
                },
                (TickStage::AwaitingEntry, TickEvent::EntryRead(told)) => {
                    match told {
                        Some(true) => (TickStage::Finished, TickAction::Finish(TickEnd::Paused)),
                        _ => (
                            TickStage::AwaitingNotice,
                            TickAction::PostNotice(withdrawal_embed(&job)),
                        ),
                    }
                },
                (TickStage::AwaitingNotice, TickEvent::NoticePosted) => (
                    TickStage::AwaitingMark,
                    TickAction::MarkNotified,
                ),
                (TickStage::AwaitingMark, TickEvent::Marked) => (
                    TickStage::Finished,
                    TickAction::Finish(TickEnd::Paused),
                ),
                (
                    TickStage::AwaitingPlaceholder { request },
                    TickEvent::PlaceholderPosted(placeholder),
                ) => (TickStage::AwaitingRender { placeholder }, TickAction::Render(request)),
                (TickStage::AwaitingRender { placeholder }, TickEvent::Rendered(Err(error))) => {
                    match placeholder {
                        Some(id) => (
                            TickStage::AwaitingFailureNotice { error },
                            TickAction::ShowFailure { placeholder: id, embed: failure_embed(&job) },
                        ),
                        None => (TickStage::Finished, TickAction::Finish(TickEnd::Failed(error))),
                    }
                },
                (TickStage::AwaitingRender { placeholder }, TickEvent::Rendered(Ok(updated))) => {
                    let report = build_report(&job, updated, next_tick);
                    match placeholder {
                        Some(id) => (
                            TickStage::AwaitingEdit { placeholder: id },
                            TickAction::EditIntoReport { placeholder: id, report },
                        ),
                        None => (TickStage::AwaitingPost, TickAction::Post(report)),
                    }
                },
                (TickStage::AwaitingFailureNotice { error }, TickEvent::FailureShown) => (
                    TickStage::Finished,
                    TickAction::Finish(TickEnd::Failed(error)),
                ),
                (TickStage::AwaitingEdit { placeholder }, TickEvent::Edited(ok)) => {
                    if ok {
                        (TickStage::Finished, TickAction::Finish(TickEnd::Delivered))
                    } else {
                        (TickStage::AwaitingFreshPost { placeholder }, TickAction::PostFresh)
                    }
                },
                (TickStage::AwaitingFreshPost { placeholder }, TickEvent::Posted) => (
                    TickStage::AwaitingDelete,
                    TickAction::DeletePlaceholder(placeholder),
                ),
                (TickStage::AwaitingDelete, TickEvent::Deleted) => (
                    TickStage::Finished,
                    TickAction::Finish(TickEnd::Delivered),
                ),
                (TickStage::AwaitingPost, TickEvent::Posted) => (
                    TickStage::Finished,
                    TickAction::Finish(TickEnd::Delivered),
                ),
                _ => (TickStage::Finished, TickAction::Finish(TickEnd::OutOfOrder)),
            },
        };
        (ReportTick { job, next_tick, stage: next }, action)
    }
}

} // verus!

verus! {

/// The approval gate comes before any work: a tick asks for a placeholder,
/// and so for a render, only after opening the webhook, and only for a
/// region or for a guild that is approved to schedule the world map.
pub proof fn the_gate_comes_before_any_render(
    job: ReportJob,
    next_tick: Option<i64>,
    stage: TickStage,
    event: TickEvent,
    next: TickStage,
    action: TickAction,
)
    requires
        tick_follows(job, next_tick, stage, event, next, action),
        next is AwaitingPlaceholder || action is PostPlaceholder,
    ensures
        (stage matches TickStage::AwaitingWebhook { guild } && (job.map_name is Some
            || guild.full_map_approved)),
{
}

/// Rendering is asked for only once a placeholder has been tried.
pub proof fn renders_follow_the_placeholder(
    job: ReportJob,
    next_tick: Option<i64>,
    stage: TickStage,
    event: TickEvent,
    next: TickStage,
    action: TickAction,
)
    requires
        tick_follows(job, next_tick, stage, event, next, action),
        action is Render,
    ensures
        stage is AwaitingPlaceholder,
        event is PlaceholderPosted,
{
}

/// The withdrawal notice is given once: a channel already told is not told
/// again, and the notice is recorded as given only after it went out.
pub proof fn the_notice_is_given_once(
    job: ReportJob,
    next_tick: Option<i64>,
    stage: TickStage,
    event: TickEvent,
    next: TickStage,
    action: TickAction,
)
    requires
        tick_follows(job, next_tick, stage, event, next, action),
    ensures
        stage is AwaitingEntry && event == TickEvent::EntryRead(Some(true)) ==> action
            == TickAction::Finish(TickEnd::Paused),
        action is MarkNotified ==> (stage is AwaitingNotice && event is NoticePosted),
        action is PostNotice ==> (stage is AwaitingEntry && event != TickEvent::EntryRead(
            Some(true),
        )),
{
}

/// One message per run: a report goes out as a new message only when there
/// was no placeholder to edit, or editing it failed — and then the stale
/// placeholder is deleted next.
pub proof fn one_message_per_run(
    job: ReportJob,
    next_tick: Option<i64>,
    stage: TickStage,
    event: TickEvent,
    next: TickStage,
    action: TickAction,
)
    requires
        tick_follows(job, next_tick, stage, event, next, action),
    ensures
        action is Post ==> (stage == (TickStage::AwaitingRender { placeholder: None })),
        action is PostFresh ==> (stage is AwaitingEdit && event == TickEvent::Edited(false)),
        stage is AwaitingFreshPost && event is Posted ==> (action == TickAction::DeletePlaceholder(
            stage->AwaitingFreshPost_placeholder,
        )),
{
}

/// A render asks for what the schedule and its server chose: the job's own
/// map, with labels exactly when the job asked for them — on a region as on
/// the world map — the server's frontline setting, and its territory tint
/// only on the world map.
pub proof fn renders_draw_what_the_job_asked_for(
    job: ReportJob,
    next_tick: Option<i64>,
    guild: GuildData,
    mid: TickStage,
    first: TickAction,
    placeholder: Option<u64>,
    next: TickStage,
    action: TickAction,
)
    requires
        tick_follows(
            job,
            next_tick,
            TickStage::AwaitingWebhook { guild },
            TickEvent::WebhookOpened,
            mid,
            first,
        ),
        tick_follows(job, next_tick, mid, TickEvent::PlaceholderPosted(placeholder), next, action),
    ensures
        action matches TickAction::Render(request) ==> {
            &&& request.draw_text == job.draw_text
            &&& text_view(request.map_name) == text_view(job.map_name)
            &&& request.frontline == guild.frontline
            &&& request.faction_tint == (job.map_name is None && guild.full_map_faction_tint)
        },
{
}

/// A failed render never leaves the placeholder saying "fetching": it is
/// turned into the failure notice, and the tick still ends as failed.
pub proof fn a_failed_render_is_reported(
    job: ReportJob,
    next_tick: Option<i64>,
    placeholder: u64,
    error: String,
    next: TickStage,
    action: TickAction,
)
    requires
        tick_follows(
            job,
            next_tick,
            (TickStage::AwaitingRender { placeholder: Some(placeholder) }),
            TickEvent::Rendered(Err(error)),
            next,
            action,
        ),
    ensures
        (action matches TickAction::ShowFailure { placeholder: p, embed } && p == placeholder
            && embed@ == failure_shape(job.schedule_name@)),
        (next matches TickStage::AwaitingFailureNotice { error: e } && e@ == error@),
{
}

} // verus!
