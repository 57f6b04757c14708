//! What the slash commands decide and say, apart from the Discord calls that
//! carry it: the status line while the world map renders, the shard picker,
//! the form answers a request stores, and the settings summary.
use vstd::prelude::*;
use vstd::string::*;

use crate::db::{shard_name, GuildData, Shard};
use crate::embed::text_view;
use crate::entitlement::{scheduling, FullMapScheduling};
use crate::schedule::{
    cadence, cadence_spec, cadence_view, cron_accepts, failure_message, min_interval_minutes,
    cron_next_fires, fires_or_never_spec, next_fires, preview_lines, LAST_SECOND, preview_text, shortest_gap_minutes, shortest_gap_spec, timezone,
    timezone_spec, Cadence, Day, Frequency, ScheduleError, ScheduleFailure,
    FULL_MAP_MIN_INTERVAL_MINUTES, MIN_INTERVAL_MINUTES, PREVIEW_COUNT,
};
use crate::regions::{regions, REGION_COUNT};
use crate::text::{
    chars_of, decimal, eq_ignore_ascii_case, eq_ignore_ascii_case_chars, push_decimal,
    push_signed_decimal, push_str, signed_decimal, str_eq, string_from_chars, trim, trim_chars,
};

verus! {

/// The two overlays that change what the full map looks like, named as the
/// status line names them.
pub open spec fn overlay_words(frontline: bool, faction_tint: bool) -> Option<Seq<char>> {
    if frontline && faction_tint {
        Some("frontline and territory tint"@)
    } else if frontline {
        Some("frontline"@)
    } else if faction_tint {
        Some("territory tint"@)
    } else {
        None
    }
}

pub open spec fn rendering_message_spec(
    shard_name: Seq<char>,
    frontline: bool,
    faction_tint: bool,
) -> Seq<char> {
    let head = "**Rendering the world map for "@ + shard_name + ".**\nStitching all "@ + decimal(
        REGION_COUNT as nat,
    ) + " regions onto one canvas — this takes a moment."@;
    match overlay_words(frontline, faction_tint) {
        Some(w) => head + "\nWith the "@ + w + " on."@,
        None => head,
    }
}

/// What the bot says while the world map renders.
///
/// One message, posted once and never updated in place: editing an
/// interaction response counts against Discord's rate limits. It says how big
/// the job is, so the wait reads as proportionate, and names the two settings
/// that change what comes back, so a user who forgot they turned one on can
/// tell whether it took.
pub fn rendering_message(shard_name: &str, frontline: bool, faction_tint: bool) -> (message:
    String)
    ensures
        message@ == rendering_message_spec(shard_name@, frontline, faction_tint),
{
    let mut out: Vec<char> = Vec::new();
    push_str(&mut out, "**Rendering the world map for ");
    push_str(&mut out, shard_name);
    push_str(&mut out, ".**\nStitching all ");
    push_decimal(&mut out, regions().len() as u64);
    push_str(&mut out, " regions onto one canvas — this takes a moment.");
    let extras: Option<&str> = if frontline && faction_tint {
        Some("frontline and territory tint")
    } else if frontline {
        Some("frontline")
    } else if faction_tint {
        Some("territory tint")
    } else {
        None
    };
    if let Some(extras) = extras {
        push_str(&mut out, "\nWith the ");
        push_str(&mut out, extras);
        push_str(&mut out, " on.");
    }
    string_from_chars(&out)
}

/// Blank-but-present is the same as absent, and storing `"   "` as somebody's
/// use case helps nobody reviewing it.
pub fn optional(value: String) -> (kept: Option<String>)
    ensures
        match kept {
            Some(s) => s@ == trim(value@) && s@.len() > 0,
            None => trim(value@).len() == 0,
        },
{
    let trimmed = trim_chars(&chars_of(value.as_str()));
    if trimmed.len() == 0 {
        None
    } else {
        Some(string_from_chars(&trimmed))
    }
}

/// The modal's last box confirms the applicant read the conditions: it has to
/// say `yes`, in any case, with any surrounding whitespace.
pub fn acknowledged(answer: &str) -> (ok: bool)
    ensures
        ok == eq_ignore_ascii_case(trim(answer@), seq!['y', 'e', 's']),
{
    let trimmed = trim_chars(&chars_of(answer));
    let yes = vec!['y', 'e', 's'];
    eq_ignore_ascii_case_chars(&trimmed, &yes)
}

/// The three live shards, offered as a Discord choice list.
///
/// All three are always offered, even when one is down: a choice list is
/// baked into the command at registration, so the check that a shard can
/// serve happens at the moment of choosing instead.
#[derive(Debug, Clone, Copy, PartialEq, Eq, Structural)]
pub enum ShardChoice {
    Able,
    Baker,
    Charlie,
}

pub open spec fn shard_of_choice(choice: ShardChoice) -> Shard {
    match choice {
        ShardChoice::Able => Shard::Able,
        ShardChoice::Baker => Shard::Baker,
        ShardChoice::Charlie => Shard::Charlie,
    }
}

/// The shard chosen is the shard of that name: choosing Able, Baker or
/// Charlie stores that very shard, so two choices never land on one shard and
/// every shard can be chosen.
pub proof fn choices_name_their_shard(a: ShardChoice, b: ShardChoice, shard: Shard)
    ensures
        shard_name(shard_of_choice(ShardChoice::Able)) == "Able"@,
        shard_name(shard_of_choice(ShardChoice::Baker)) == "Baker"@,
        shard_name(shard_of_choice(ShardChoice::Charlie)) == "Charlie"@,
        shard_of_choice(a) == shard_of_choice(b) ==> a == b,
        exists|c: ShardChoice| shard_of_choice(c) == shard,
{
    let c = match shard {
        Shard::Able => ShardChoice::Able,
        Shard::Baker => ShardChoice::Baker,
        Shard::Charlie => ShardChoice::Charlie,
    };
    assert(shard_of_choice(c) == shard);
}

impl From<ShardChoice> for Shard {
    fn from(choice: ShardChoice) -> (shard: Shard) {
        match choice {
            ShardChoice::Able => Shard::Able,
            ShardChoice::Baker => Shard::Baker,
            ShardChoice::Charlie => Shard::Charlie,
        }
    }
}

impl vstd::std_specs::convert::FromSpecImpl<ShardChoice> for Shard {
    open spec fn obeys_from_spec() -> bool {
        true
    }

    open spec fn from_spec(choice: ShardChoice) -> Shard {
        shard_of_choice(choice)
    }
}

/// `on` or `off`.
pub open spec fn on_off(flag: bool) -> Seq<char> {
    if flag {
        "on"@
    } else {
        "off"@
    }
}

pub open spec fn settings_summary_spec(
    existed: bool,
    shard: Shard,
    show_messages: bool,
    faction_tint: bool,
    frontline: bool,
    timezone: Seq<char>,
) -> Seq<char> {
    (if existed {
        "Updated"@
    } else {
        "Created"@
    }) + " — shard **"@ + shard_name(shard) + "**, command output "@ + (if show_messages {
        "visible to everyone"@
    } else {
        "only visible to whoever runs them"@
    }) + ", full-map faction tint **"@ + on_off(faction_tint) + "**, frontline **"@ + on_off(
        frontline,
    ) + "**, timezone **"@ + timezone + "**."@
}

/// The reply to `/set-guild-settings`, reported from the stored row rather
/// than the options given, so an omitted option says what the guild actually
/// has rather than "unchanged".
pub fn settings_summary(
    existed: bool,
    shard: Shard,
    show_messages: bool,
    faction_tint: bool,
    frontline: bool,
    timezone: &str,
) -> (text: String)
    ensures
        text@ == settings_summary_spec(
            existed,
            shard,
            show_messages,
            faction_tint,
            frontline,
            timezone@,
        ),
{
    let mut out: Vec<char> = Vec::new();
    push_str(
        &mut out,
        if existed {
            "Updated"
        } else {
            "Created"
        },
    );
    push_str(&mut out, " — shard **");
    push_str(&mut out, shard.as_str());
    push_str(&mut out, "**, command output ");
    push_str(
        &mut out,
        if show_messages {
            "visible to everyone"
        } else {
            "only visible to whoever runs them"
        },
    );
    push_str(&mut out, ", full-map faction tint **");
    push_str(
        &mut out,
        if faction_tint {
            "on"
        } else {
            "off"
        },
    );
    push_str(&mut out, "**, frontline **");
    push_str(
        &mut out,
        if frontline {
            "on"
        } else {
            "off"
        },
    );
    push_str(&mut out, "**, timezone **");
    push_str(&mut out, timezone);
    push_str(&mut out, "**.");
    string_from_chars(&out)
}

/// The `map-name` value that means "the whole world map" rather than a
/// region. It can't collide with a region: every region identifier the API
/// serves ends in `Hex`, and this doesn't.
pub const FULL_MAP_TARGET: &'static str = "full-map";

/// What a schedule renders: a region, or `None` for the whole world map.
pub open spec fn schedule_target(map_name: Seq<char>) -> Option<Seq<char>> {
    if map_name == "full-map"@ {
        None
    } else {
        Some(map_name)
    }
}

/// Why a schedule is refused for posting too often, and what is still free.
pub open spec fn interval_refusal(gap: int, floor: int, full_map: bool) -> Seq<char> {
    "That schedule would post as often as every **"@ + signed_decimal(gap) + " minutes**, and the minimum is **"@
        + signed_decimal(floor) + "**. "@ + (if full_map {
        "All 53 regions are re-rendered every time, and the war doesn't move that fast."@
    } else {
        "Anything quicker posts faster than the front actually moves, and reads as spam in the channel it lands in."@
    }) + " `/get-map` and `/full-map` are still on demand and unlimited."@
}

fn interval_refusal_text(gap: i64, floor: i64, full_map: bool) -> (text: String)
    ensures
        text@ == interval_refusal(gap as int, floor as int, full_map),
{
    let mut out: Vec<char> = Vec::new();
    push_str(&mut out, "That schedule would post as often as every **");
    push_signed_decimal(&mut out, gap);
    push_str(&mut out, " minutes**, and the minimum is **");
    push_signed_decimal(&mut out, floor);
    push_str(&mut out, "**. ");
    if full_map {
        push_str(&mut out, "All 53 regions are re-rendered every time, and the war doesn't move that fast.");
    } else {
        push_str(&mut out, "Anything quicker posts faster than the front actually moves, and reads as spam in the channel it lands in.");
    }
    push_str(&mut out, " `/get-map` and `/full-map` are still on demand and unlimited.");
    string_from_chars(&out)
}

/// Where a `/schedule-report` request stands once everything that needs no
/// Discord or database round trip has been checked.
pub enum SchedulePlan {
    /// The whole world map was asked for, and this guild isn't approved to
    /// schedule it.
    NeedsApproval,
    /// Refused; the reply says why.
    Refused(String),
    /// Everything checks out, and these are the real next fire times to show
    /// before anything is stored.
    Ready { target: Option<String>, zone: String, cadence: Cadence, fires: Vec<i64> },
}

/// `Some` of the text behind an optional argument.
pub open spec fn text_of(value: Option<&str>) -> Option<Seq<char>> {
    match value {
        Some(v) => Some(v@),
        None => None,
    }
}

/// The floor on how often a schedule may post, in minutes, for the world map
/// or for a region.
pub open spec fn floor_of(full_map: bool) -> int {
    if full_map {
        FULL_MAP_MIN_INTERVAL_MINUTES as int
    } else {
        MIN_INTERVAL_MINUTES as int
    }
}

/// What the previewed fire times decide, once everything else checks out:
/// no times at all is a schedule that never fires; two times closer than the
/// floor refuse it, naming the shortest gap; otherwise it is ready, carrying
/// exactly those times.
pub open spec fn fires_decide(
    target: Option<Seq<char>>,
    zone: Seq<char>,
    cron: Seq<char>,
    label: Seq<char>,
    full_map: bool,
    fires: Seq<i64>,
    plan: SchedulePlan,
) -> bool {
    if fires.len() == 0 {
        plan matches SchedulePlan::Refused(m) && m@ == failure_message(ScheduleFailure::NeverFires)
    } else if shortest_gap_spec(fires) matches Some(g) && g < floor_of(full_map) {
        plan matches SchedulePlan::Refused(m) && m@ == interval_refusal(
            shortest_gap_spec(fires)->0,
            floor_of(full_map),
            full_map,
        )
    } else {
        plan matches SchedulePlan::Ready { target: t, zone: z, cadence: c, fires: f } && text_view(t)
            == target && z@ == zone && c.cron@ == cron && c.label@ == label && f@ == fires
    }
}

/// What the previewed fire times decide, for a preview of the next four
/// times the cadence fires after some instant chrono can represent: the
/// present, whichever it was.
pub open spec fn previewed_plan(
    target: Option<Seq<char>>,
    zone: Seq<char>,
    cron: Seq<char>,
    label: Seq<char>,
    full_map: bool,
    plan: SchedulePlan,
) -> bool {
    exists|now: i64|
        0 <= now <= LAST_SECOND && #[trigger] fires_decide(
            target,
            zone,
            cron,
            label,
            full_map,
            cron_next_fires(cron, zone, now, (PREVIEW_COUNT + 1) as usize),
            plan,
        )
}

/// What a plan may be once the approval gate is passed, for a request whose
/// timezone is `zone_name` and whose cadence fields are given: the timezone
/// and cadence refusals, and past them what the next four fire times after
/// the present decide.
pub open spec fn plan_follows(
    map_name: Seq<char>,
    zone_name: Seq<char>,
    frequency: Frequency,
    at_time: Option<Seq<char>>,
    day: Option<Day>,
    custom: Option<Seq<char>>,
    plan: SchedulePlan,
) -> bool {
    match timezone_spec(zone_name) {
        Err(t) => plan matches SchedulePlan::Refused(m) && m@ == failure_message(
            ScheduleFailure::BadTimezone(t),
        ),
        Ok(zone) => match cadence_spec(frequency, at_time, day, custom) {
            Err(e) => plan matches SchedulePlan::Refused(m) && m@ == failure_message(e),
            Ok((cron, label)) => if !cron_accepts(cron) {
                plan matches SchedulePlan::Refused(m) && m@ == failure_message(
                    ScheduleFailure::BadCustom(cron),
                )
            } else {
                previewed_plan(
                    schedule_target(map_name),
                    zone,
                    cron,
                    label,
                    schedule_target(map_name) is None,
                    plan,
                )
            },
        },
    }
}

/// Decides a schedule from its previewed fire times: refused when there are
/// none or two of them fall closer than the floor, and otherwise ready with
/// those times.
pub fn plan_from_fires(
    target: Option<String>,
    zone: String,
    cadence: Cadence,
    fires: Vec<i64>,
    full_map: bool,
) -> (plan: SchedulePlan)
    ensures
        fires_decide(
            text_view(target),
            zone@,
            cadence.cron@,
            cadence.label@,
            full_map,
            fires@,
            plan,
        ),
{
    if fires.len() == 0 {
        return SchedulePlan::Refused(ScheduleError::NeverFires.message());
    }
    let floor = min_interval_minutes(full_map);
    match shortest_gap_minutes(fires.as_slice()) {
        Some(gap) => {
            if gap < floor {
                return SchedulePlan::Refused(interval_refusal_text(gap, floor, full_map));
            }
        },
        None => {},
    }
    SchedulePlan::Ready { target, zone, cadence, fires }
}

/// The checks `/schedule-report` makes before it touches a webhook or a row,
/// in the order it makes them: the approval gate for the world map, the
/// timezone (the report's own, or the server's), the cadence, real fire
/// times, and the floor on how often it may post — an hour for the full map,
/// half an hour for anything else — measured from the previewed times, so
/// `Custom` is held to the same rule as the choice list.
///
/// The fire times are counted from the present, so the contract says what
/// holds whichever instant it is: the plan is what [`plan_from_fires`]
/// decides from the cadence's next four fire times after that instant, in
/// the schedule's zone.
#[verifier::spinoff_prover]
pub fn plan_schedule(
    guild: &GuildData,
    map_name: &str,
    frequency: Frequency,
    at_time: Option<&str>,
    zone_override: Option<&str>,
    day: Option<Day>,
    custom: Option<&str>,
) -> (plan: SchedulePlan)
    ensures
        (plan is NeedsApproval) <==> (schedule_target(map_name@) is None
            && !guild.full_map_approved),
        !(schedule_target(map_name@) is None && !guild.full_map_approved) ==> plan_follows(
            map_name@,
            match zone_override {
                Some(z) => z@,
                None => guild.timezone@,
            },
            frequency,
            text_of(at_time),
            day,
            text_of(custom),
            plan,
        ),
{
    let full_map = str_eq(map_name, FULL_MAP_TARGET);
    proof {
        reveal_strlit("full-map");
    }
    if full_map && !scheduling().is_allowed(guild) {
        return SchedulePlan::NeedsApproval;
    }
    let target: Option<String> = if full_map {
        None
    } else {
        Some(String::from_str(map_name))
    };
    let zone_name = match zone_override {
        Some(z) => z,
        None => guild.timezone.as_str(),
    };
    let zone = match timezone(zone_name) {
        Ok(zone) => zone,
        Err(err) => {
            return SchedulePlan::Refused(err.message());
        },
    };
    let cadence = match cadence(frequency, at_time, day, custom) {
        Ok(cadence) => cadence,
        Err(err) => {
            return SchedulePlan::Refused(err.message());
        },
    };
    let previewed = next_fires(cadence.cron.as_str(), zone.as_str(), PREVIEW_COUNT + 1);
    let ghost now = choose|now: i64|
        0 <= now <= LAST_SECOND && #[trigger] fires_or_never_spec(
            cron_next_fires(cadence.cron@, zone@, now, (PREVIEW_COUNT + 1) as usize),
            previewed,
        );
    let fires = match previewed {
        Ok(fires) => fires,
        Err(ScheduleError::NeverFires) => Vec::new(),
        Err(err) => {
            proof {
                assert(!cron_accepts(cadence.cron@));
            }
            return SchedulePlan::Refused(err.message());
        },
    };
    let ghost shown = fires@;
    let ghost zone_view = zone@;
    let ghost cron_view = cadence.cron@;
    let ghost label_view = cadence.label@;
    proof {
        assert(full_map == (schedule_target(map_name@) is None));
        assert(text_view(target) == schedule_target(map_name@));
        assert(shown == cron_next_fires(cron_view, zone_view, now, (PREVIEW_COUNT + 1) as usize));
    }
    let plan = plan_from_fires(target, zone, cadence, fires, full_map);
    assert(fires_decide(
        schedule_target(map_name@),
        zone_view,
        cron_view,
        label_view,
        full_map,
        cron_next_fires(cron_view, zone_view, now, (PREVIEW_COUNT + 1) as usize),
        plan,
    ));
    assert(previewed_plan(
        schedule_target(map_name@),
        zone_view,
        cron_view,
        label_view,
        full_map,
        plan,
    ));
    plan
}

/// The reply once a schedule is stored: what it is, that nothing posts yet,
/// and the next runs.
///
/// The "it's broken" report that isn't: a schedule waits for its next slot,
/// so creating an hourly report at :05 posts nothing for 55 minutes. Said
/// here, next to the timestamp that proves it.
pub open spec fn created_message_spec(
    schedule_name: Seq<char>,
    label: Seq<char>,
    zone: Seq<char>,
    channel_id: nat,
    fires: Seq<i64>,
) -> Seq<char> {
    "Scheduled report `"@ + schedule_name + "` created — **"@ + label + "** ("@ + zone
        + "), posting to <#"@ + decimal(channel_id)
        + ">.\n**Nothing posts right now.** The first report arrives at the first time below (<t:"@
        + signed_decimal(fires[0] as int)
        + ":R>) — a schedule waits for its next slot, it doesn't fire on creation.\nNext three runs:\n"@
        + preview_text(fires.take(if fires.len() < PREVIEW_COUNT { fires.len() as int } else { PREVIEW_COUNT as int }))
}

pub fn created_message(
    schedule_name: &str,
    label: &str,
    zone: &str,
    channel_id: u64,
    fires: &[i64],
) -> (text: String)
    requires
        fires@.len() > 0,
    ensures
        text@ == created_message_spec(schedule_name@, label@, zone@, channel_id as nat, fires@),
{
    let mut out: Vec<char> = Vec::new();
    push_str(&mut out, "Scheduled report `");
    push_str(&mut out, schedule_name);
    push_str(&mut out, "` created — **");
    push_str(&mut out, label);
    push_str(&mut out, "** (");
    push_str(&mut out, zone);
    push_str(&mut out, "), posting to <#");
    push_decimal(&mut out, channel_id);
    push_str(&mut out, ">.\n**Nothing posts right now.** The first report arrives at the first time below (<t:");
    push_signed_decimal(&mut out, fires[0]);
    push_str(&mut out, ":R>) — a schedule waits for its next slot, it doesn't fire on creation.\nNext three runs:\n");
    let shown = if fires.len() < PREVIEW_COUNT {
        fires.len()
    } else {
        PREVIEW_COUNT
    };
    let mut first: Vec<i64> = Vec::new();
    let mut k: usize = 0;
    while k < shown
        invariant
            k <= shown <= fires@.len(),
            first@ == fires@.take(k as int),
        decreases shown - k,
    {
        first.push(fires[k]);
        k += 1;
        assert(first@ =~= fires@.take(k as int));
    }
    let preview = preview_lines(first.as_slice());
    push_str(&mut out, preview.as_str());
    string_from_chars(&out)
}

/// What to say to a server that asked to schedule a full map without
/// approval: never a bare refusal. A request already waiting is named with
/// its number and age; otherwise the reply names the command that opens the
/// form and says plainly that no money is involved.
pub open spec fn unapproved_message_spec(pending: Option<(i64, i64)>) -> Seq<char> {
    match pending {
        Some((id, created_at)) => "Request **#"@ + signed_decimal(id as int) + "** (filed <t:"@
            + signed_decimal(created_at as int)
            + ":R>) is still waiting for a decision — you'll hear back in the channel it named. `/full-map` works on demand meanwhile."@,
        None => "Scheduling the **whole world map** needs approval first — run `/request-full-map-schedule`.\nIt's free. Approval is a queue, not a paid tier: a scheduled full map re-renders all 53 regions on a timer. `/full-map` and single-region schedules are unaffected."@,
    }
}

pub fn unapproved_message(pending: Option<(i64, i64)>) -> (text: String)
    ensures
        text@ == unapproved_message_spec(pending),
{
    let mut out: Vec<char> = Vec::new();
    match pending {
        Some((id, created_at)) => {
            push_str(&mut out, "Request **#");
            push_signed_decimal(&mut out, id);
            push_str(&mut out, "** (filed <t:");
            push_signed_decimal(&mut out, created_at);
            push_str(&mut out, ":R>) is still waiting for a decision — you'll hear back in the channel it named. `/full-map` works on demand meanwhile.");
        },
        None => {
            push_str(&mut out, "Scheduling the **whole world map** needs approval first — run `/request-full-map-schedule`.\nIt's free. Approval is a queue, not a paid tier: a scheduled full map re-renders all 53 regions on a timer. `/full-map` and single-region schedules are unaffected.");
        },
    }
    string_from_chars(&out)
}

} // verus!
