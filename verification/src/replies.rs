//! What the one-shot commands reply: the embeds for `/get-map`, `/full-map`,
//! `/war-report` and `/war-state`, and the plain answers of the others. Every
//! failure path has its own reply — a deferred interaction with no final
//! answer leaves the user watching a spinner forever.
use vstd::prelude::*;
use vstd::string::*;

use crate::commands::optional;
use crate::db::{JobData, NewFullMapRequest};
use crate::embed::{field_views, push_field, text_view, Embed, EmbedField, EmbedShape};
use crate::foxhole::{War, WarReport};
use crate::http::{status_text, HttpStatus};
use crate::map_render::MapError;
use crate::regions::{display_name, display_name_spec};
use crate::text::{
    chars_of, decimal, lowercase, parse_u64, parse_unsigned, push_decimal, push_signed_decimal, push_str, signed_decimal,
    string_from_chars, to_lowercase, trim, trim_chars,
};
use crate::timestamp::{format_timestamp, timestamp_text};

verus! {

/// Said to a server that runs a command before choosing a shard.
pub const NEEDS_SETUP: &'static str = "No shard is set for this server. Run `/set-guild-settings` to choose one.";

/// The one place the support invite is written down, in the same form the
/// docs use, so the link in Discord and the link on the site visibly match.
pub const SUPPORT_INVITE: &'static str = "https://discord.gg/9wzppSgXdQ";

/// The guild's Discord id as the `i64` the database stores (the same bits,
/// as `as` reinterprets them). Every command is server-only, but the id still
/// arrives optional, and unwrapping it is what used to take a handler down.
pub fn guild_key(id: Option<u64>) -> (key: Result<i64, &'static str>)
    ensures
        match id {
            Some(n) => key == Ok::<i64, &'static str>(n as i64),
            None => key matches Err(e) && e@ == "this command can only be used in a server"@,
        },
{
    match id {
        Some(n) => Ok(n as i64),
        None => Err("this command can only be used in a server"),
    }
}

// ---------------------------------------------------------------------------
// Rendered maps
// ---------------------------------------------------------------------------

/// A reply carrying a rendered image: its embed, and the name the image is
/// attached under.
pub struct ImageReply {
    pub embed: Embed,
    pub file_name: String,
}

pub open spec fn image_embed(
    title: Seq<char>,
    last_updated: i64,
    file_name: Seq<char>,
) -> EmbedShape {
    EmbedShape {
        title: Some(title),
        color: (0u8, 255u8, 0u8),
        description: Some("Last API Update: "@ + timestamp_text(last_updated)),
        fields: Seq::empty(),
        image: Some("attachment://"@ + file_name),
        footer: Some("Requested at"@),
    }
}

fn image_reply(title: String, last_updated: i64, file_name: String) -> (reply: ImageReply)
    ensures
        reply.embed@ == image_embed(title@, last_updated, file_name@),
        reply.file_name@ == file_name@,
{
    let mut description: Vec<char> = Vec::new();
    push_str(&mut description, "Last API Update: ");
    let updated = format_timestamp(last_updated);
    push_str(&mut description, updated.as_str());
    let mut image: Vec<char> = Vec::new();
    push_str(&mut image, "attachment://");
    push_str(&mut image, file_name.as_str());
    let embed = Embed {
        title: Some(title),
        color: (0, 255, 0),
        description: Some(string_from_chars(&description)),
        fields: Vec::new(),
        image: Some(string_from_chars(&image)),
        footer: Some(String::from_str("Requested at")),
    };
    assert(embed@.fields =~= Seq::<(Seq<char>, Seq<char>, bool)>::empty());
    ImageReply { embed, file_name }
}

/// `/get-map`'s answer: the region under its real name.
pub fn region_reply(map_name: &str, last_updated: i64) -> (reply: ImageReply)
    ensures
        reply.file_name@ == map_name@ + ".png"@,
        reply.embed@ == image_embed(
            display_name_spec(map_name@),
            last_updated,
            map_name@ + ".png"@,
        ),
{
    let mut file: Vec<char> = Vec::new();
    push_str(&mut file, map_name);
    push_str(&mut file, ".png");
    image_reply(display_name(map_name), last_updated, string_from_chars(&file))
}

/// `/full-map`'s answer, named for the shard it shows.
pub fn world_reply(shard_name: &str, last_updated: i64) -> (reply: ImageReply)
    ensures
        reply.file_name@ == "full-map-"@ + lowercase(shard_name@) + ".png"@,
        reply.embed@ == image_embed(
            "World Conquest — "@ + shard_name@,
            last_updated,
            "full-map-"@ + lowercase(shard_name@) + ".png"@,
        ),
{
    let mut title: Vec<char> = Vec::new();
    push_str(&mut title, "World Conquest — ");
    push_str(&mut title, shard_name);
    let lowered = to_lowercase(shard_name);
    let mut file: Vec<char> = Vec::new();
    push_str(&mut file, "full-map-");
    push_str(&mut file, lowered.as_str());
    push_str(&mut file, ".png");
    image_reply(string_from_chars(&title), last_updated, string_from_chars(&file))
}

/// What `/full-map` says when there is no map. Every region failing means
/// the shard itself, so it is named — that points straight at
/// `/set-guild-settings`, where "the API" gives nothing to act on.
pub open spec fn world_failure_text(err: MapError, shard_name: Seq<char>) -> Seq<char> {
    match err {
        MapError::ApiUnavailable => "Couldn't get any region data from shard **"@ + shard_name
            + "** — it looks to be down or between wars. Try again shortly, or switch shards with `/set-guild-settings`."@,
        MapError::TooLarge(_) => "The full map came out too large to upload. Please report this."@,
        _ => "Couldn't render the full map. Try again shortly."@,
    }
}

pub fn world_failure(err: &MapError, shard_name: &str) -> (text: String)
    ensures
        text@ == world_failure_text(*err, shard_name@),
{
    match err {
        MapError::ApiUnavailable => {
            let mut out: Vec<char> = Vec::new();
            push_str(&mut out, "Couldn't get any region data from shard **");
            push_str(&mut out, shard_name);
            push_str(
                &mut out,
                "** — it looks to be down or between wars. Try again shortly, or switch shards with `/set-guild-settings`.",
            );
            string_from_chars(&out)
        },
        MapError::TooLarge(_) => String::from_str(
            "The full map came out too large to upload. Please report this.",
        ),
        _ => String::from_str("Couldn't render the full map. Try again shortly."),
    }
}

// ---------------------------------------------------------------------------
// War report and war state
// ---------------------------------------------------------------------------

/// The number in a field, as `{}` prints it.
pub open spec fn number_field(name: Seq<char>, n: i64) -> (Seq<char>, Seq<char>, bool) {
    (name, signed_decimal(n as int), false)
}

fn number_text(n: i64) -> (text: String)
    ensures
        text@ == signed_decimal(n as int),
{
    let mut out: Vec<char> = Vec::new();
    push_signed_decimal(&mut out, n);
    string_from_chars(&out)
}

pub open spec fn war_report_shape(report: WarReport, map_name: Seq<char>) -> EmbedShape {
    EmbedShape {
        title: Some(display_name_spec(map_name)),
        color: (0u8, 0u8, 0u8),
        description: None,
        fields: seq![
            number_field("Total Enlistments"@, report.total_enlistments),
            number_field("Colonial Casualties"@, report.colonial_casualties),
            number_field("Warden Casualties"@, report.warden_casualties),
            number_field("Day Of War"@, report.day_of_war),
        ],
        image: None,
        footer: Some("Requested at"@),
    }
}

/// `/war-report`'s answer for one region.
pub fn war_report_embed(report: &WarReport, map_name: &str) -> (embed: Embed)
    ensures
        embed@ == war_report_shape(*report, map_name@),
{
    let mut fields: Vec<EmbedField> = Vec::new();
    push_field(
        &mut fields,
        String::from_str("Total Enlistments"),
        number_text(report.total_enlistments),
        false,
    );
    push_field(
        &mut fields,
        String::from_str("Colonial Casualties"),
        number_text(report.colonial_casualties),
        false,
    );
    push_field(
        &mut fields,
        String::from_str("Warden Casualties"),
        number_text(report.warden_casualties),
        false,
    );
    push_field(&mut fields, String::from_str("Day Of War"), number_text(report.day_of_war), false);
    let embed = Embed {
        title: Some(display_name(map_name)),
        color: (0, 0, 0),
        description: None,
        fields,
        image: None,
        footer: Some(String::from_str("Requested at")),
    };
    assert(embed@.fields =~= war_report_shape(*report, map_name@).fields);
    embed
}

/// When a region's report can't be had and nothing is cached.
pub fn war_report_refused(status: &HttpStatus) -> (text: String)
    ensures
        text@ == "The Foxhole API returned `"@ + status_text(status.value())
            + "` for that region. Try again shortly."@,
{
    let mut out: Vec<char> = Vec::new();
    push_str(&mut out, "The Foxhole API returned `");
    let shown = status.text();
    push_str(&mut out, shown.as_str());
    push_str(&mut out, "` for that region. Try again shortly.");
    string_from_chars(&out)
}

/// `/war-state` is what a user reaches for *because* something looks wrong,
/// so a shard that answers with an error is named rather than reported as
/// "something went wrong". `None` for a success status.
pub fn war_state_refused(status: &HttpStatus, shard_name: &str) -> (text: Option<String>)
    ensures
        200 <= status.value() <= 299 ==> text is None,
        !(200 <= status.value() <= 299) ==> (text matches Some(t) && t@
            == "The Foxhole API returned `"@ + status_text(status.value()) + "` for shard **"@
            + shard_name@ + "**. It may be between wars or down — try again shortly."@),
{
    let code = status.code();
    if 200 <= code && code <= 299 {
        return None;
    }
    let mut out: Vec<char> = Vec::new();
    push_str(&mut out, "The Foxhole API returned `");
    let shown = status.text();
    push_str(&mut out, shown.as_str());
    push_str(&mut out, "` for shard **");
    push_str(&mut out, shard_name);
    push_str(&mut out, "**. It may be between wars or down — try again shortly.");
    Some(string_from_chars(&out))
}

/// When the shard answered with something that isn't a war.
pub fn war_state_unreadable(shard_name: &str) -> (text: String)
    ensures
        text@ == "Shard **"@ + shard_name@
            + "** answered with something we couldn't read. Please report it if it keeps happening."@,
{
    let mut out: Vec<char> = Vec::new();
    push_str(&mut out, "Shard **");
    push_str(&mut out, shard_name);
    push_str(
        &mut out,
        "** answered with something we couldn't read. Please report it if it keeps happening.",
    );
    string_from_chars(&out)
}

pub open spec fn war_state_shape(war: War, shard_name: Seq<char>) -> EmbedShape {
    EmbedShape {
        title: None,
        color: (255u8, 0u8, 0u8),
        description: None,
        fields: seq![
            ("Shard/Server"@, shard_name, false),
            number_field("War Number"@, war.war_number),
            ("Winner"@, war.winner@, false),
            ("Conquest Start Time"@, timestamp_text(war.conquest_start_time), false),
            number_field("Required Victory Towns"@, war.required_victory_towns),
        ],
        image: None,
        footer: Some("Requested at"@),
    }
}

/// `/war-state`'s answer: the shard's war as a whole.
pub fn war_state_embed(war: &War, shard_name: &str) -> (embed: Embed)
    ensures
        embed@ == war_state_shape(*war, shard_name@),
{
    let mut fields: Vec<EmbedField> = Vec::new();
    push_field(&mut fields, String::from_str("Shard/Server"), String::from_str(shard_name), false);
    push_field(&mut fields, String::from_str("War Number"), number_text(war.war_number), false);
    push_field(&mut fields, String::from_str("Winner"), war.winner.clone(), false);
    push_field(
        &mut fields,
        String::from_str("Conquest Start Time"),
        format_timestamp(war.conquest_start_time),
        false,
    );
    push_field(
        &mut fields,
        String::from_str("Required Victory Towns"),
        number_text(war.required_victory_towns),
        false,
    );
    let embed = Embed {
        title: None,
        color: (255, 0, 0),
        description: None,
        fields,
        image: None,
        footer: Some(String::from_str("Requested at")),
    };
    assert(embed@.fields =~= war_state_shape(*war, shard_name@).fields);
    embed
}

// ---------------------------------------------------------------------------
// Removing a schedule
// ---------------------------------------------------------------------------

pub fn no_such_schedule(schedule_name: &str) -> (text: String)
    ensures
        text@ == "This server has no scheduled report named `"@ + schedule_name@
            + "`. Check the name and try again."@,
{
    let mut out: Vec<char> = Vec::new();
    push_str(&mut out, "This server has no scheduled report named `");
    push_str(&mut out, schedule_name);
    push_str(&mut out, "`. Check the name and try again.");
    string_from_chars(&out)
}

pub fn schedule_removed(schedule_name: &str) -> (text: String)
    ensures
        text@ == "Scheduled report `"@ + schedule_name@ + "` was removed."@,
{
    let mut out: Vec<char> = Vec::new();
    push_str(&mut out, "Scheduled report `");
    push_str(&mut out, schedule_name);
    push_str(&mut out, "` was removed.");
    string_from_chars(&out)
}

/// Does another of the server's schedules post through the same webhook?
/// A report's webhook is torn down only once nothing else uses it.
pub fn webhook_still_used(jobs: &[JobData], removed: &JobData) -> (used: bool)
    ensures
        used == exists|k: int|
            0 <= k < jobs@.len() && (#[trigger] jobs@[k]).id != removed.id && jobs@[k].webhook_url@
                == removed.webhook_url@,
{
    let mut i: usize = 0;
    while i < jobs.len()
        invariant
            i <= jobs@.len(),
            forall|k: int|
                0 <= k < i ==> !((#[trigger] jobs@[k]).id != removed.id && jobs@[k].webhook_url@
                    == removed.webhook_url@),
        decreases jobs.len() - i,
    {
        if jobs[i].id != removed.id && crate::text::str_eq(
            jobs[i].webhook_url.as_str(),
            removed.webhook_url.as_str(),
        ) {
            assert(jobs@[i as int].id != removed.id);
            return true;
        }
        i += 1;
    }
    false
}

// ---------------------------------------------------------------------------
// Settings and requests
// ---------------------------------------------------------------------------

/// A shard that can't serve this server: the reason, and that nothing was
/// stored.
pub fn nothing_changed(problem: &str) -> (text: String)
    ensures
        text@ == problem@ + "\n\nNothing was changed."@,
{
    let mut out: Vec<char> = Vec::new();
    push_str(&mut out, problem);
    push_str(&mut out, "\n\nNothing was changed.");
    string_from_chars(&out)
}

pub const ALREADY_APPROVED: &'static str = "This server is already approved for scheduled full-map reports — no need to apply again. Set one up with `/schedule-report`.";

pub const NOT_ACKNOWLEDGED: &'static str = "The last box needs to say `YES` — it's the bit confirming you understand this is a free tool with no uptime guarantee and that approval can be withdrawn. Nothing was submitted; run the command again when you're ready.";

/// Only one request can be open at a time; checked before the form opens,
/// so nobody fills in five fields only to be told it was pointless.
pub open spec fn already_pending_text(id: i64, created_at: i64) -> Seq<char> {
    "This server already has request **#"@ + signed_decimal(id as int)
        + "** waiting for review, filed <t:"@ + signed_decimal(created_at as int)
        + ":R>. Only one can be open at a time."@
}

pub fn already_pending(id: i64, created_at: i64) -> (text: String)
    ensures
        text@ == already_pending_text(id, created_at),
{
    let mut out: Vec<char> = Vec::new();
    push_str(&mut out, "This server already has request **#");
    push_signed_decimal(&mut out, id);
    push_str(&mut out, "** waiting for review, filed <t:");
    push_signed_decimal(&mut out, created_at);
    push_str(&mut out, ":R>. Only one can be open at a time.");
    string_from_chars(&out)
}

/// The receipt, and plainly: no payment is involved, and this is a queue,
/// not a price.
pub open spec fn request_submitted_text(id: i64, channel_id: u64) -> Seq<char> {
    "Request **#"@ + signed_decimal(id as int) + "** submitted — thanks. You'll get an answer in <#"@
            + decimal(channel_id as nat)
            + ">.\n\nTo be clear about what this is: **no payment is involved and there is no paid tier.** Rendering the world map on demand with `/full-map` is free for everyone and always will be. The request exists because a *scheduled* full map stitches all 53 regions on a timer, forever, whether or not anyone looks at it — this is a queue, not a price."@
}

pub fn request_submitted(id: i64, channel_id: u64) -> (text: String)
    ensures
        text@ == request_submitted_text(id, channel_id),
{
    let mut out: Vec<char> = Vec::new();
    push_str(&mut out, "Request **#");
    push_signed_decimal(&mut out, id);
    push_str(&mut out, "** submitted — thanks. You'll get an answer in <#");
    push_decimal(&mut out, channel_id);
    push_str(
        &mut out,
        ">.\n\nTo be clear about what this is: **no payment is involved and there is no paid tier.** Rendering the world map on demand with `/full-map` is free for everyone and always will be. The request exists because a *scheduled* full map stitches all 53 regions on a timer, forever, whether or not anyone looks at it — this is a queue, not a price.",
    );
    string_from_chars(&out)
}

pub open spec fn kept_text(value: Option<String>) -> Option<Seq<char>> {
    match value {
        Some(v) => if trim(v@).len() > 0 {
            Some(trim(v@))
        } else {
            None
        },
        None => None,
    }
}

fn keep(value: Option<String>) -> (kept: Option<String>)
    ensures
        text_view(kept) == kept_text(value),
{
    match value {
        Some(v) => optional(v),
        None => None,
    }
}

/// The row an application becomes. The member count is review context only,
/// kept when it fits the column; blank answers are the same as absent ones.
pub open spec fn request_row(
    request: NewFullMapRequest,
    guild_row: i64,
    requested_by: u64,
    member_count: Option<u64>,
    cadence: Seq<char>,
    channel_id: u64,
    use_case: String,
    audience: Option<String>,
    contact: Option<String>,
) -> bool {
    &&& request.guild == guild_row
    &&& request.requested_by == requested_by as i64
    &&& request.member_count == match member_count {
        Some(n) => if n <= i32::MAX {
            Some(n as i32)
        } else {
            None
        },
        None => None,
    }
    &&& request.cadence@ == trim(cadence)
    &&& request.channel_id == channel_id as i64
    &&& text_view(request.use_case) == kept_text(Some(use_case))
    &&& text_view(request.audience) == kept_text(audience)
    &&& text_view(request.contact) == kept_text(contact)
}

/// The row an application becomes.
pub fn new_request(
    guild_row: i64,
    requested_by: u64,
    member_count: Option<u64>,
    cadence: &str,
    channel_id: u64,
    use_case: String,
    audience: Option<String>,
    contact: Option<String>,
) -> (request: NewFullMapRequest)
    ensures
        request_row(
            request,
            guild_row,
            requested_by,
            member_count,
            cadence@,
            channel_id,
            use_case,
            audience,
            contact,
        ),
{
    let members = match member_count {
        Some(n) => if n <= 2147483647 {
            Some(n as i32)
        } else {
            None
        },
        None => None,
    };
    NewFullMapRequest {
        guild: guild_row,
        requested_by: requested_by as i64,
        member_count: members,
        cadence: string_from_chars(&trim_chars(&chars_of(cadence))),
        channel_id: channel_id as i64,
        use_case: keep(Some(use_case)),
        audience: keep(audience),
        contact: keep(contact),
    }
}

// ---------------------------------------------------------------------------
// Help, startup and errors
// ---------------------------------------------------------------------------

/// `/schedule-help`: what the frequencies mean and which clock they are read
/// in, which is where the confusion actually was.
pub const SCHEDULE_HELP: &'static str = "**Scheduling a report**\nPick a `frequency` from the list — every 15 minutes through weekly. Schedule names must be unique within this server.\n\n**`at_time` is what the cadence lines up with**, as 24-hour `HH:MM`. It isn't only for daily reports:\n• `every 6 hours` at `03:30` → 03:30, 09:30, 15:30, 21:30\n• `every 15 minutes` at `00:07` → :07, :22, :37, :52\n• `daily` at `18:00` → 18:00, once a day\n\nLeft blank, it means the top of the hour. Note that these are **clock times, not \"from now\"** — `every 6 hours` created at 09:20 next fires at 12:00, not 15:20.\n\n**Timezones.** `/set-guild-settings` sets this server's default; the `timezone` option on `/schedule-report` overrides it for one report. Both take an IANA name from the autocomplete (`Europe/Berlin`), so daylight saving is handled for you. A schedule keeps the timezone it was created with, even if the server default changes later.\n\n**`Custom…`** takes a 6-field cron expression (`sec min hour day month weekday`) or a plain-English phrase, for anything the list doesn't cover.\n\nWhichever you pick, the reply shows **the next three times it will fire** before the schedule is saved, in your own timezone. If those three lines aren't what you meant, nothing has been created yet.";

/// The development guild commands are registered in with `--local`, from
/// `GUILD_ID`.
pub fn dev_guild_id(setting: Option<&str>) -> (id: Result<u64, &'static str>)
    ensures
        match setting {
            None => id matches Err(e) && e@ == "GUILD_ID is not set in .env"@,
            Some(raw) => match parse_unsigned(raw@, u64::MAX as int) {
                Some(n) => id == Ok::<u64, &'static str>(n as u64),
                None => id matches Err(e) && e@ == "GUILD_ID must be an integer"@,
            },
        },
{
    match setting {
        None => Err("GUILD_ID is not set in .env"),
        Some(raw) => match parse_u64(&chars_of(raw)) {
            Some(n) => Ok(n),
            None => Err("GUILD_ID must be an integer"),
        },
    }
}

/// The application id, from `APP_ID`, for clearing commands over REST.
pub fn app_id(raw: &str) -> (id: Result<u64, &'static str>)
    ensures
        match parse_unsigned(raw@, u64::MAX as int) {
            Some(n) => id == Ok::<u64, &'static str>(n as u64),
            None => id matches Err(e) && e@ == "APP_ID must be an integer"@,
        },
{
    match parse_u64(&chars_of(raw)) {
        Some(n) => Ok(n),
        None => Err("APP_ID must be an integer"),
    }
}

/// The reply to a command that failed. Always a reply, so a deferred
/// interaction never hangs on its spinner, and always with somewhere to
/// report it.
pub fn command_failed() -> (text: String)
    ensures
        text@ == "Something went wrong running that command. If it keeps happening, please report it: "@
            + SUPPORT_INVITE@,
{
    let mut out: Vec<char> = Vec::new();
    push_str(
        &mut out,
        "Something went wrong running that command. If it keeps happening, please report it: ",
    );
    push_str(&mut out, SUPPORT_INVITE);
    string_from_chars(&out)
}

pub const SERVER_ONLY: &'static str = "This command only works inside a server.";

} // verus!
