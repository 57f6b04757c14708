//! The rows the bot stores, and the small rules that read them: which shard a
//! guild is on, and where a full-map request stands.
use vstd::prelude::*;
use vstd::string::*;

use crate::text::{
    ascii_lower, ascii_lowercase, chars_of, eq_ignore_ascii_case, is_ascii_text, lowercase, str_eq, string_from_chars, to_lowercase,
    trim, trim_chars,
};

verus! {

/// A Foxhole live shard. `shard` in the database stores [`Shard::api_url`],
/// `shard_name` stores [`Shard::as_str`].
#[derive(Debug, Clone, Copy, PartialEq, Eq, Structural)]
pub enum Shard {
    Able,
    Baker,
    Charlie,
}

pub open spec fn shard_name(shard: Shard) -> Seq<char> {
    match shard {
        Shard::Able => "Able"@,
        Shard::Baker => "Baker"@,
        Shard::Charlie => "Charlie"@,
    }
}

pub open spec fn shard_api_url(shard: Shard) -> Seq<char> {
    match shard {
        Shard::Able => "https://war-service-live.foxholeservices.com/api"@,
        Shard::Baker => "https://war-service-live-2.foxholeservices.com/api"@,
        Shard::Charlie => "https://war-service-live-3.foxholeservices.com/api"@,
    }
}

/// Which shard a stored or typed name means: `baker` and `charlie` in any
/// case and with any surrounding whitespace, and Able for everything else.
pub open spec fn shard_from_name(s: Seq<char>) -> Shard {
    let l = lowercase(trim(s));
    if l == "baker"@ {
        Shard::Baker
    } else if l == "charlie"@ {
        Shard::Charlie
    } else {
        Shard::Able
    }
}

impl Shard {
    pub fn as_str(&self) -> (s: &'static str)
        ensures
            s@ == shard_name(*self),
    {
        match self {
            Shard::Able => "Able",
            Shard::Baker => "Baker",
            Shard::Charlie => "Charlie",
        }
    }

    pub fn api_url(&self) -> (s: &'static str)
        ensures
            s@ == shard_api_url(*self),
    {
        match self {
            Shard::Able => "https://war-service-live.foxholeservices.com/api",
            Shard::Baker => "https://war-service-live-2.foxholeservices.com/api",
            Shard::Charlie => "https://war-service-live-3.foxholeservices.com/api",
        }
    }

    /// Read case-insensitively and without surrounding whitespace; unknown
    /// values fall back to Able.
    pub fn from_str(s: &str) -> (shard: Shard)
        ensures
            shard == shard_from_name(s@),
    {
        let trimmed = string_from_chars(&trim_chars(&chars_of(s)));
        let lower = to_lowercase(trimmed.as_str());
        if str_eq(lower.as_str(), "baker") {
            Shard::Baker
        } else if str_eq(lower.as_str(), "charlie") {
            Shard::Charlie
        } else {
            Shard::Able
        }
    }

    pub fn list_all() -> (all: [Shard; 3])
        ensures
            all@ == seq![Shard::Able, Shard::Baker, Shard::Charlie],
    {
        [Shard::Able, Shard::Baker, Shard::Charlie]
    }
}

/// A shard's own name reads back as that shard.
pub proof fn shard_names_read_back(shard: Shard)
    ensures
        shard_from_name(shard_name(shard)) == shard,
{
    reveal_strlit("Able");
    reveal_strlit("Baker");
    reveal_strlit("Charlie");
    reveal_strlit("able");
    reveal_strlit("baker");
    reveal_strlit("charlie");
    let n = shard_name(shard);
    assert(trim(n) == n) by {
        assert(!crate::text::is_white_space(n[0]));
        assert(!crate::text::is_white_space(n.last()));
    }
    assert(is_ascii_text(n));
    let l = ascii_lowercase(n);
    assert(lowercase(n) == l);
    match shard {
        Shard::Able => {
            assert(l =~= "able"@);
            assert(l != "baker"@);
            assert(l != "charlie"@);
        },
        Shard::Baker => {
            assert(l =~= "baker"@);
        },
        Shard::Charlie => {
            assert(l =~= "charlie"@);
            assert(l != "baker"@);
        },
    }
}

/// A guild's stored settings.
#[derive(Debug, Clone)]
pub struct GuildData {
    pub id: i64,
    pub guild_id: i64,
    pub shard: String,
    pub shard_name: String,
    pub show_command_output: bool,
    pub full_map_faction_tint: bool,
    /// Draw the contested boundary between the factions, on `/get-map` as
    /// well as on the full map.
    pub frontline: bool,
    /// This server's default timezone, as an IANA name.
    pub timezone: String,
    /// May this guild put a full-map report on a timer? Rendering one on
    /// demand never consults this.
    pub full_map_approved: bool,
}

impl GuildData {
    pub fn shard(&self) -> (shard: Shard)
        ensures
            shard == shard_from_name(self.shard_name@),
    {
        Shard::from_str(self.shard_name.as_str())
    }
}

/// One stored schedule.
#[derive(Debug, Clone)]
pub struct JobData {
    pub id: i64,
    /// `guilds.id` (the surrogate row id), *not* the Discord snowflake.
    pub guild: i64,
    pub job_name: String,
    /// A string the scheduler accepts.
    pub schedule: String,
    /// The cadence in words. `None` for rows older than labels.
    pub schedule_label: Option<String>,
    /// IANA name, resolved when the schedule was created.
    pub timezone: String,
    pub webhook_url: String,
    /// The region this job renders, or `None` for a full-map job.
    pub map_name: Option<String>,
    pub draw_text: bool,
    pub job_id: Option<String>,
    /// Whether this job's channel has already been told the schedule went
    /// dormant.
    pub dormant_notified: bool,
}

/// One schedule row plus the Discord id of the guild that owns it.
#[derive(Debug, Clone)]
pub struct JobWithGuild {
    pub job_row_id: i64,
    pub guild_row_id: i64,
    pub job_name: String,
    pub schedule: String,
    pub schedule_label: Option<String>,
    pub timezone: String,
    pub webhook_url: String,
    pub map_name: Option<String>,
    pub draw_text: bool,
    pub job_id: Option<String>,
    pub guild_id: i64,
}

/// Everything needed to persist a schedule, scheduler id included: the job is
/// registered before the row is written.
#[derive(Debug, Clone)]
pub struct NewJob {
    pub guild: i64,
    pub job_name: String,
    pub schedule: String,
    pub schedule_label: Option<String>,
    pub timezone: String,
    pub webhook_url: String,
    pub map_name: Option<String>,
    pub draw_text: bool,
    pub job_id: String,
}

/// Where a full-map schedule request stands.
#[derive(Debug, Clone, Copy, PartialEq, Eq, Structural)]
pub enum RequestStatus {
    Pending,
    Approved,
    Denied,
    Withdrawn,
}

pub open spec fn status_text(status: RequestStatus) -> Seq<char> {
    match status {
        RequestStatus::Pending => "pending"@,
        RequestStatus::Approved => "approved"@,
        RequestStatus::Denied => "denied"@,
        RequestStatus::Withdrawn => "withdrawn"@,
    }
}

impl RequestStatus {
    pub fn as_str(&self) -> (s: &'static str)
        ensures
            s@ == status_text(*self),
    {
        match self {
            RequestStatus::Pending => "pending",
            RequestStatus::Approved => "approved",
            RequestStatus::Denied => "denied",
            RequestStatus::Withdrawn => "withdrawn",
        }
    }
}

/// One row of the application queue, with the applying guild's Discord
/// snowflake joined on.
#[derive(Debug, Clone)]
pub struct FullMapRequest {
    pub id: i64,
    pub guild: i64,
    pub guild_id: i64,
    pub requested_by: i64,
    pub member_count: Option<i32>,
    pub cadence: String,
    pub channel_id: i64,
    pub use_case: Option<String>,
    pub audience: Option<String>,
    pub contact: Option<String>,
    pub status: String,
    pub reviewed_by: Option<i64>,
    pub message_id: Option<i64>,
    pub created_at: i64,
}

impl FullMapRequest {
    pub fn is_pending(&self) -> (pending: bool)
        ensures
            pending == (self.status@ == status_text(RequestStatus::Pending)),
    {
        str_eq(self.status.as_str(), RequestStatus::Pending.as_str())
    }

    /// True only while this request *is* the guild's standing approval.
    pub fn is_approved(&self) -> (approved: bool)
        ensures
            approved == (self.status@ == status_text(RequestStatus::Approved)),
    {
        str_eq(self.status.as_str(), RequestStatus::Approved.as_str())
    }
}

/// A shard's name reads back as that shard in any ASCII case and with any
/// whitespace around it.
pub proof fn shard_names_read_back_in_any_case(shard: Shard, written: Seq<char>)
    requires
        eq_ignore_ascii_case(trim(written), shard_name(shard)),
    ensures
        shard_from_name(written) == shard,
{
    shard_names_read_back(shard);
    reveal_strlit("Able");
    reveal_strlit("Baker");
    reveal_strlit("Charlie");
    let t = trim(written);
    let n = shard_name(shard);
    assert(trim(n) == n) by {
        assert(!crate::text::is_white_space(n[0]));
        assert(!crate::text::is_white_space(n.last()));
    }
    assert(is_ascii_text(n));
    assert forall|i: int| 0 <= i < t.len() implies (#[trigger] t[i] as u32) < 0x80 by {
        assert(ascii_lower(t[i]) == ascii_lower(n[i]));
        assert((n[i] as u32) < 0x80);
    }
    assert(ascii_lowercase(t) =~= ascii_lowercase(n));
}

/// A request is never both waiting for a decision and the standing approval.
pub proof fn pending_and_approved_exclude(status: Seq<char>)
    ensures
        !(status == status_text(RequestStatus::Pending) && status == status_text(
            RequestStatus::Approved,
        )),
{
    reveal_strlit("pending");
    reveal_strlit("approved");
    assert(status_text(RequestStatus::Pending).len() != status_text(RequestStatus::Approved).len());
}

/// The outcome of withdrawing a guild's approval: whether anything changed,
/// and the closed request when there still is one on file.
pub enum Revoked {
    NotApproved,
    Withdrawn(Box<Option<FullMapRequest>>),
}

/// The answers from the application modal, plus what the bot fills in itself.
#[derive(Debug, Clone)]
pub struct NewFullMapRequest {
    pub guild: i64,
    pub requested_by: i64,
    pub member_count: Option<i32>,
    pub cadence: String,
    pub channel_id: i64,
    pub use_case: Option<String>,
    pub audience: Option<String>,
    pub contact: Option<String>,
}

/// One row of a usage summary: a bucket, and either one command's tally in it
/// or — when `command` is `None` — the bucket's own total.
#[derive(Debug, Clone)]
pub struct UsageBucket {
    /// `YYYY-MM-DD` — the day, or the Monday the week starts on.
    pub bucket: String,
    pub command: Option<String>,
    pub uses: i64,
    /// Distinct servers, over exactly the rows this row summarises.
    pub servers: i64,
}

/// Whether a usage summary is bucketed by day or by week.
#[derive(Debug, Clone, Copy, PartialEq, Eq, Structural)]
pub enum UsagePeriod {
    Daily,
    Weekly,
}

/// What exists right now: servers, schedules, approvals.
#[derive(Debug, Clone)]
pub struct UsageOverview {
    pub guilds: i64,
    pub approved_guilds: i64,
    pub schedules: i64,
    pub full_map_schedules: i64,
    pub scheduling_guilds: i64,
}

} // verus!
