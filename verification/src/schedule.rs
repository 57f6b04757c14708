//! Turning a picked cadence into a cron expression, and a timezone name into a
//! zone.
//!
//! The rule this module exists to enforce: **the bot writes the cron string,
//! the user never does.** Everything a user can supply here is either a choice
//! from a fixed list, an `HH:MM`, or an IANA name that came out of an
//! autocomplete. The one free-text path left is [`Frequency::Custom`], and it
//! has to prove itself by showing real fire times before anything is stored.
//!
//! A timezone is carried as its canonical IANA name: that is what gets stored
//! on a schedule, and it is all the rest of the logic reads of it.
use vstd::prelude::*;
use vstd::string::*;

use crate::text::{
    chars_of, decimal, digits_value, eq_ignore_ascii_case, eq_ignore_ascii_case_chars,
    parse_u32, parse_unsigned, push_chars, push_decimal, push_signed_decimal, push_str,
    push_two_digits, signed_decimal, slice_chars, string_from_chars, trim, trim_chars,
    trim_is_idempotent, two_digits,
};

verus! {

/// No schedule may fire more often than this, whatever it renders.
pub const MIN_INTERVAL_MINUTES: i64 = 30;

/// A full-map schedule may not fire more often than this.
pub const FULL_MAP_MIN_INTERVAL_MINUTES: i64 = 60;

/// How many fire times to show before saving a schedule.
pub const PREVIEW_COUNT: usize = 3;

/// The floor that applies to a given target: the full map buys an hour, every
/// other schedule the global half hour.
pub fn min_interval_minutes(full_map: bool) -> (minutes: i64)
    ensures
        minutes == (if full_map {
            FULL_MAP_MIN_INTERVAL_MINUTES
        } else {
            MIN_INTERVAL_MINUTES
        }),
{
    if full_map {
        FULL_MAP_MIN_INTERVAL_MINUTES
    } else {
        MIN_INTERVAL_MINUTES
    }
}

/// Why a schedule could not be built.
#[derive(Debug, Clone, PartialEq, Eq)]
pub enum ScheduleError {
    /// The `HH:MM` given, trimmed.
    BadTime(String),
    MissingCustom,
    /// The custom phrase, or the expression it turned into.
    BadCustom(String),
    /// The timezone name given, trimmed.
    BadTimezone(String),
    NeverFires,
}

/// [`ScheduleError`] with its text as characters.
pub enum ScheduleFailure {
    BadTime(Seq<char>),
    MissingCustom,
    BadCustom(Seq<char>),
    BadTimezone(Seq<char>),
    NeverFires,
}

impl View for ScheduleError {
    type V = ScheduleFailure;

    open spec fn view(&self) -> ScheduleFailure {
        match self {
            ScheduleError::BadTime(s) => ScheduleFailure::BadTime(s@),
            ScheduleError::MissingCustom => ScheduleFailure::MissingCustom,
            ScheduleError::BadCustom(s) => ScheduleFailure::BadCustom(s@),
            ScheduleError::BadTimezone(s) => ScheduleFailure::BadTimezone(s@),
            ScheduleError::NeverFires => ScheduleFailure::NeverFires,
        }
    }
}

/// What the user is told for each way a schedule can fail.
pub open spec fn failure_message(e: ScheduleFailure) -> Seq<char> {
    match e {
        ScheduleFailure::BadTime(t) => "`"@ + t
            + "` isn't a time I understand. Use 24-hour `HH:MM`, for example `18:30`."@,
        ScheduleFailure::MissingCustom => "pick a `custom` expression, or choose one of the listed frequencies"@,
        ScheduleFailure::BadCustom(t) => "`"@ + t + "` isn't a schedule the scheduler understands"@,
        ScheduleFailure::BadTimezone(t) => "`"@ + t
            + "` isn't a timezone I know. Pick one from the autocomplete list."@,
        ScheduleFailure::NeverFires => "that schedule has no future run times"@,
    }
}

impl ScheduleError {
    /// The error as the user reads it.
    pub fn message(&self) -> (text: String)
        ensures
            text@ == failure_message(self@),
    {
        let mut out: Vec<char> = Vec::new();
        match self {
            ScheduleError::BadTime(t) => {
                push_str(&mut out, "`");
                push_str(&mut out, t.as_str());
                push_str(&mut out, "` isn't a time I understand. Use 24-hour `HH:MM`, for example `18:30`.");
            },
            ScheduleError::MissingCustom => {
                push_str(&mut out, "pick a `custom` expression, or choose one of the listed frequencies");
            },
            ScheduleError::BadCustom(t) => {
                push_str(&mut out, "`");
                push_str(&mut out, t.as_str());
                push_str(&mut out, "` isn't a schedule the scheduler understands");
            },
            ScheduleError::BadTimezone(t) => {
                push_str(&mut out, "`");
                push_str(&mut out, t.as_str());
                push_str(&mut out, "` isn't a timezone I know. Pick one from the autocomplete list.");
            },
            ScheduleError::NeverFires => {
                push_str(&mut out, "that schedule has no future run times");
            },
        }
        string_from_chars(&out)
    }
}

/// How often a report posts. A fixed list, so the common path has nothing to
/// get wrong — plus one escape hatch for people who know what they want.
#[derive(Debug, Clone, Copy, PartialEq, Eq, Structural)]
pub enum Frequency {
    Every30Minutes,
    Hourly,
    Every2Hours,
    Every3Hours,
    Every4Hours,
    Every6Hours,
    Every8Hours,
    Every12Hours,
    Daily,
    Weekly,
    Custom,
}

/// The day a weekly report posts on.
#[derive(Debug, Clone, Copy, PartialEq, Eq, Structural)]
pub enum Day {
    Monday,
    Tuesday,
    Wednesday,
    Thursday,
    Friday,
    Saturday,
    Sunday,
}

/// Cron's day-of-week number. Sunday is 0, matching chrono and croner.
pub open spec fn day_number(day: Day) -> nat {
    match day {
        Day::Sunday => 0,
        Day::Monday => 1,
        Day::Tuesday => 2,
        Day::Wednesday => 3,
        Day::Thursday => 4,
        Day::Friday => 5,
        Day::Saturday => 6,
    }
}

pub open spec fn day_name(day: Day) -> Seq<char> {
    match day {
        Day::Monday => "Monday"@,
        Day::Tuesday => "Tuesday"@,
        Day::Wednesday => "Wednesday"@,
        Day::Thursday => "Thursday"@,
        Day::Friday => "Friday"@,
        Day::Saturday => "Saturday"@,
        Day::Sunday => "Sunday"@,
    }
}

/// The days of the week in cron's order, which starts on Sunday.
pub open spec fn cron_week() -> Seq<Seq<char>> {
    seq!["Sunday"@, "Monday"@, "Tuesday"@, "Wednesday"@, "Thursday"@, "Friday"@, "Saturday"@]
}

/// The number a weekly cron expression carries in its day-of-week field
/// names the very day its label names: counted in cron's week, from Sunday.
/// So no two days share a number.
pub proof fn day_numbers_name_their_day(d: Day, e: Day)
    ensures
        day_number(d) < 7,
        cron_week()[day_number(d) as int] == day_name(d),
        day_number(d) == day_number(e) ==> d == e,
{
}

impl Day {
    /// Cron's day-of-week number. Written as a number rather than `MON`, so
    /// nothing depends on how the parser feels about three-letter names.
    pub fn number(self) -> (n: u32)
        ensures
            n == day_number(self),
    {
        match self {
            Day::Sunday => 0,
            Day::Monday => 1,
            Day::Tuesday => 2,
            Day::Wednesday => 3,
            Day::Thursday => 4,
            Day::Friday => 5,
            Day::Saturday => 6,
        }
    }

    pub fn name(self) -> (s: &'static str)
        ensures
            s@ == day_name(self),
    {
        match self {
            Day::Monday => "Monday",
            Day::Tuesday => "Tuesday",
            Day::Wednesday => "Wednesday",
            Day::Thursday => "Thursday",
            Day::Friday => "Friday",
            Day::Saturday => "Saturday",
            Day::Sunday => "Sunday",
        }
    }
}

/// The two things a schedule needs stored: the expression the scheduler runs,
/// and the phrase a human reads in the embed.
#[derive(Debug, Clone, PartialEq, Eq)]
pub struct Cadence {
    pub cron: String,
    pub label: String,
}

// ---------------------------------------------------------------------------
// What the scheduler accepts
// ---------------------------------------------------------------------------

/// Whether croner parses an expression with the settings the scheduler runs
/// it under: six fields with seconds required, and day-of-month together with
/// day-of-week.
pub uninterp spec fn cron_accepts(expression: Seq<char>) -> bool;

/// What `tokio_cron_scheduler::Job::schedule_to_cron` makes of a schedule: a
/// cron expression, from either an expression or an English phrase.
pub uninterp spec fn scheduler_cron(schedule: Seq<char>) -> Option<Seq<char>>;

// ---------------------------------------------------------------------------
// Timezones, by their IANA names
// ---------------------------------------------------------------------------

/// The name of entry `index` of chrono-tz's `TZ_VARIANTS` list of zones, or
/// `None` past its end.
pub uninterp spec fn tz_variant(index: int) -> Option<Seq<char>>;

/// A name chrono-tz knows: the name of one of its zones, exactly.
pub open spec fn tz_is_known(name: Seq<char>) -> bool {
    exists|i: int| tz_variant(i) == Some(name)
}

/// How many zones chrono-tz lists. Claims that `tz_variant` names one for
/// every index below the count and none from it on, which is what a slice's
/// length is.
#[verifier::external_body]
pub(crate) fn tz_variant_count() -> (count: usize)
    ensures
        forall|i: int| #[trigger] tz_variant(i) is Some <==> 0 <= i < count,
{
    chrono_tz::TZ_VARIANTS.len()
}

/// The IANA name of `TZ_VARIANTS[index]` (`Tz::name`). Besides naming the
/// result, claims what chrono-tz's generated table of names shows: no name
/// has whitespace at either end.
#[verifier::external_body]
pub(crate) fn tz_variant_name(index: usize) -> (name: &'static str)
    requires
        tz_variant(index as int) is Some,
    ensures
        tz_variant(index as int) == Some(name@),
        trim(name@) == name@,
{
    chrono_tz::TZ_VARIANTS[index].name()
}

/// `Tz::from_str` succeeds. In chrono-tz it is an exact lookup in a table
/// whose keys are the names of the `TZ_VARIANTS` zones, so it succeeds exactly
/// for those names.
#[verifier::external_body]
fn tz_parses(name: &str) -> (known: bool)
    ensures
        known == tz_is_known(name@),
{
    name.parse::<chrono_tz::Tz>().is_ok()
}

/// Zone `i` is named `t`, ignoring ASCII case.
pub open spec fn folded_match(t: Seq<char>, i: int) -> bool {
    tz_variant(i) matches Some(n) && eq_ignore_ascii_case(n, t)
}

/// Zone `i` is the first named `t`, ignoring ASCII case.
pub open spec fn first_folded_match(t: Seq<char>, i: int) -> bool {
    &&& folded_match(t, i)
    &&& forall|j: int| 0 <= j < i ==> !folded_match(t, j)
}

/// The canonical name a typed timezone resolves to, or the trimmed text to
/// report when it names no zone: an exact name first, then the first zone
/// whose name matches ignoring ASCII case.
pub open spec fn timezone_spec(name: Seq<char>) -> Result<Seq<char>, Seq<char>> {
    let t = trim(name);
    if tz_is_known(t) {
        Ok(t)
    } else if exists|i: int| folded_match(t, i) {
        Ok(tz_variant(choose|i: int| first_folded_match(t, i))->0)
    } else {
        Err(t)
    }
}

/// An IANA name, from the autocomplete or typed. Case-insensitive on the way
/// in so `europe/london` works, but what comes back is always the canonical
/// name, which is what gets stored.
pub fn timezone(name: &str) -> (r: Result<String, ScheduleError>)
    ensures
        match timezone_spec(name@) {
            Ok(canonical) => r matches Ok(s) && s@ == canonical && tz_is_known(canonical),
            Err(t) => r matches Err(ScheduleError::BadTimezone(s)) && s@ == t,
        },
        r matches Ok(s) ==> timezone_spec(s@) == Ok::<Seq<char>, Seq<char>>(s@),
{
    let trimmed = trim_chars(&chars_of(name));
    let text = string_from_chars(&trimmed);
    if tz_parses(text.as_str()) {
        proof {
            trim_is_idempotent(name@);
        }
        return Ok(text);
    }
    let count = tz_variant_count();
    let mut i: usize = 0;
    while i < count
        invariant
            i <= count,
            trimmed@ == trim(name@),
            !tz_is_known(trimmed@),
            forall|k: int| #[trigger] tz_variant(k) is Some <==> 0 <= k < count,
            forall|j: int| 0 <= j < i ==> !folded_match(trimmed@, j),
        decreases count - i,
    {
        let candidate = tz_variant_name(i);
        let candidate_chars = chars_of(candidate);
        if eq_ignore_ascii_case_chars(&candidate_chars, &trimmed) {
            proof {
                let t = trimmed@;
                assert(t == trim(name@));
                assert(!tz_is_known(t));
                assert(folded_match(t, i as int));
                assert(exists|k: int| folded_match(t, k));
                assert(first_folded_match(t, i as int));
                let c = choose|k: int| first_folded_match(t, k);
                assert(first_folded_match(t, c));
                if c < i {
                } else if c > i {
                    assert(!folded_match(t, i as int));
                }
                assert(c == i);
                assert(tz_variant(i as int) == Some(candidate@));
                assert(timezone_spec(name@) == Ok::<Seq<char>, Seq<char>>(candidate@));
                assert(tz_is_known(candidate@));
                assert(timezone_spec(candidate@) == Ok::<Seq<char>, Seq<char>>(candidate@));
            }
            return Ok(String::from_str(candidate));
        }
        i += 1;
    }
    proof {
        assert forall|k: int| !folded_match(trimmed@, k) by {
            if 0 <= k < count {
            } else {
                assert(tz_variant(k) is None);
            }
        }
    }
    Err(ScheduleError::BadTimezone(text))
}

/// The stored timezone, or UTC if the row somehow holds a name this build of
/// chrono-tz doesn't know. A schedule firing an hour out beats a schedule that
/// refuses to be restored at boot.
pub fn timezone_or_utc(name: &str) -> (zone: String)
    ensures
        zone@ == match timezone_spec(name@) {
            Ok(canonical) => canonical,
            Err(_) => "UTC"@,
        },
{
    match timezone(name) {
        Ok(zone) => zone,
        Err(_) => String::from_str("UTC"),
    }
}

/// croner's parser with the scheduler's settings (`Seconds::Required`,
/// `dom_and_dow(true)`, the builder `Job::new_async_tz` uses). Claims only
/// that it succeeds exactly when `cron_accepts` holds of the expression.
#[verifier::external_body]
fn cron_parses(expression: &str) -> (accepted: bool)
    ensures
        accepted == cron_accepts(expression@),
{
    croner::parser::CronParser::builder()
        .seconds(croner::parser::Seconds::Required)
        .dom_and_dow(true)
        .build()
        .parse(expression)
        .is_ok()
}

/// `Job::schedule_to_cron` (with the `english` feature). Its result is named
/// `scheduler_cron`; its source returns an expression unchanged when croner,
/// set up as above, accepts it, and only otherwise tries the English phrase.
#[verifier::external_body]
pub(crate) fn schedule_to_cron(schedule: &str) -> (converted: Option<String>)
    ensures
        converted is None <==> scheduler_cron(schedule@) is None,
        converted matches Some(c) ==> scheduler_cron(schedule@) == Some(c@),
        converted matches Some(c) ==> (cron_accepts(schedule@) ==> c@ == schedule@),
        converted is None ==> !cron_accepts(schedule@),
{
    tokio_cron_scheduler::Job::schedule_to_cron(schedule).ok()
}

/// The last second chrono can represent, in Unix seconds: the end of the
/// year 262142.
pub const LAST_SECOND: i64 = 8210266876799;

/// The next `count` times croner's parse of `expression` fires strictly after
/// the instant `after` (Unix seconds), read in the zone named `zone`, as Unix
/// seconds. Named for what croner's `iter_after` yields from that instant.
pub uninterp spec fn cron_next_fires(expression: Seq<char>, zone: Seq<char>, after: i64, count: usize) -> Seq<i64>;

/// The present, from `chrono::Utc::now`, in whole Unix seconds. Read from the
/// clock, so all that is claimed is the range every such instant has: not
/// before the epoch, and not past what chrono can represent.
#[verifier::external_body]
fn now_seconds() -> (now: i64)
    ensures
        0 <= now <= LAST_SECOND,
{
    chrono::Utc::now().timestamp()
}

/// croner's `iter_after` for `expression`, parsed with the settings above,
/// from the instant `after` read in the zone named `zone`: the next `count`
/// fire times, as Unix seconds — named `cron_next_fires` — or `None` when
/// croner refuses the expression.
#[verifier::external_body]
fn fire_times_after(expression: &str, zone: &str, after: i64, count: usize) -> (fires: Option<Vec<i64>>)
    requires
        tz_is_known(zone@),
        0 <= after <= LAST_SECOND,
    ensures
        fires is Some <==> cron_accepts(expression@),
        fires matches Some(f) ==> f@ == cron_next_fires(expression@, zone@, after, count)
            && f@.len() <= count,
{
    let parser = croner::parser::CronParser::builder()
        .seconds(croner::parser::Seconds::Required)
        .dom_and_dow(true)
        .build();
    let cron = parser.parse(expression).ok()?;
    let tz: chrono_tz::Tz = zone.parse().unwrap();
    let start = chrono::DateTime::from_timestamp(after, 0).unwrap().with_timezone(&tz);
    Some(cron.iter_after(start).take(count).map(|at| at.timestamp()).collect())
}

// ---------------------------------------------------------------------------
// Building a cadence
// ---------------------------------------------------------------------------

/// `start`, `start + step`, ... while below `limit`.
pub open spec fn stepped(start: nat, step: nat, limit: nat) -> Seq<nat>
    decreases if start < limit {
        limit - start
    } else {
        0
    },
{
    if step == 0 || start >= limit {
        Seq::empty()
    } else {
        seq![start] + stepped(start + step, step, limit)
    }
}

proof fn lemma_stepped_reaches(start: nat, step: nat, limit: nat, j: nat)
    requires
        step > 0,
        start + j * step < limit,
    ensures
        stepped(start, step, limit).contains(start + j * step),
    decreases j,
{
    let x = start + j * step;
    assert(j * step >= 0) by (nonlinear_arith)
        requires
            step > 0,
    ;
    assert(start < limit);
    assert(stepped(start, step, limit) == seq![start] + stepped(start + step, step, limit));
    if j == 0 {
        assert(j * step == 0) by (nonlinear_arith)
            requires
                j == 0,
        ;
        assert(x == start);
        assert(stepped(start, step, limit)[0] == start);
    } else {
        assert(x == (start + step) + (j - 1) * step) by (nonlinear_arith)
            requires
                x == start + j * step,
                j >= 1,
        ;
        lemma_stepped_reaches(start + step, step, limit, (j - 1) as nat);
        let rest = stepped(start + step, step, limit);
        let k = choose|k: int| 0 <= k < rest.len() && rest[k] == x;
        assert(stepped(start, step, limit)[k + 1] == x);
    }
}

/// The time a cadence is lined up with is one of its fire times: every
/// `step` hours at `hour` (or every `step` minutes at `minute`) includes that
/// very hour (or minute), since the list starts from its remainder.
pub proof fn the_anchor_is_a_fire_time(x: nat, step: nat, limit: nat)
    requires
        step > 0,
        x < limit,
    ensures
        stepped(x % step, step, limit).contains(x),
{
    assert(x == x % step + (x / step) * step) by (nonlinear_arith)
        requires
            step > 0,
    ;
    lemma_stepped_reaches(x % step, step, limit, x / step);
}

/// Numbers in decimal, separated by commas: a cron list.
pub open spec fn join_numbers(values: Seq<nat>) -> Seq<char>
    decreases values.len(),
{
    if values.len() == 0 {
        Seq::empty()
    } else if values.len() == 1 {
        decimal(values[0])
    } else {
        decimal(values[0]) + seq![','] + join_numbers(values.drop_first())
    }
}

/// `HH:MM`.
pub open spec fn clock(hour: nat, minute: nat) -> Seq<char> {
    two_digits(hour) + seq![':'] + two_digits(minute)
}

/// Each hour at `minute`, as `HH:MM`, separated by `, `.
pub open spec fn clock_list(hours: Seq<nat>, minute: nat) -> Seq<char>
    decreases hours.len(),
{
    if hours.len() == 0 {
        Seq::empty()
    } else if hours.len() == 1 {
        clock(hours[0], minute)
    } else {
        clock(hours[0], minute) + ", "@ + clock_list(hours.drop_first(), minute)
    }
}

/// The cron expression and label for "every `step` minutes", lined up with
/// `minute`: the offset is kept, so every 30 minutes at :07 is :07 and :37.
pub open spec fn sub_hourly_spec(step: nat, minute: nat) -> (Seq<char>, Seq<char>) {
    let start = minute % step;
    let cron = "0 "@ + join_numbers(stepped(start, step, 60)) + " * * * *"@;
    let label = if start == 0 {
        "every "@ + decimal(step) + " minutes"@
    } else {
        "every "@ + decimal(step) + " minutes, at :"@ + two_digits(start)
    };
    (cron, label)
}

/// The cron expression and label for "every `step` hours", lined up with
/// `hour:minute`: every 6 hours at 03:30 is 03:30, 09:30, 15:30, 21:30.
pub open spec fn every_n_hours_spec(step: nat, hour: nat, minute: nat) -> (Seq<char>, Seq<char>) {
    let hours = stepped(hour % step, step, 24);
    let cron = "0 "@ + decimal(minute) + " "@ + join_numbers(hours) + " * * *"@;
    let label = "every "@ + decimal(step) + " hours — "@ + clock_list(hours, minute);
    (cron, label)
}

/// The position of the first `:` or `.` in `t` at or after `i`.
pub open spec fn separator_from(t: Seq<char>, i: int) -> Option<int>
    decreases t.len() - i,
{
    if i < 0 || i >= t.len() {
        None
    } else if t[i] == ':' || t[i] == '.' {
        Some(i)
    } else {
        separator_from(t, i + 1)
    }
}

/// What a 24-hour `HH:MM` (or `HH.MM`) reads as, or the trimmed text to
/// report when it reads as nothing.
pub open spec fn parse_at_time_spec(raw: Seq<char>) -> Result<(nat, nat), Seq<char>> {
    let t = trim(raw);
    match separator_from(t, 0) {
        None => Err(t),
        Some(k) => {
            let hour = parse_unsigned(trim(t.take(k)), u32::MAX as int);
            let minute = parse_unsigned(trim(t.skip(k + 1)), u32::MAX as int);
            match (hour, minute) {
                (Some(h), Some(m)) => if h <= 23 && m <= 59 {
                    Ok((h as nat, m as nat))
                } else {
                    Err(t)
                },
                _ => Err(t),
            }
        },
    }
}

/// The whole rule for turning what the user picked into a schedule.
pub open spec fn cadence_spec(
    frequency: Frequency,
    at_time: Option<Seq<char>>,
    day: Option<Day>,
    custom: Option<Seq<char>>,
) -> Result<(Seq<char>, Seq<char>), ScheduleFailure> {
    if frequency == Frequency::Custom {
        match custom {
            None => Err(ScheduleFailure::MissingCustom),
            Some(c) => {
                let raw = trim(c);
                if raw.len() == 0 {
                    Err(ScheduleFailure::MissingCustom)
                } else {
                    match scheduler_cron(raw) {
                        None => Err(ScheduleFailure::BadCustom(raw)),
                        Some(cron) => if cron_accepts(cron) {
                            Ok((cron, raw))
                        } else {
                            Err(ScheduleFailure::BadCustom(cron))
                        },
                    }
                }
            },
        }
    } else {
        let anchor = match at_time {
            Some(raw) => parse_at_time_spec(raw),
            None => Ok((0nat, 0nat)),
        };
        match anchor {
            Err(t) => Err(ScheduleFailure::BadTime(t)),
            Ok((hour, minute)) => Ok(
                match frequency {
                    Frequency::Every30Minutes => sub_hourly_spec(30, minute),
                    Frequency::Hourly => (
                        "0 "@ + decimal(minute) + " * * * *"@,
                        if minute == 0 {
                            "hourly, on the hour"@
                        } else {
                            "hourly, at :"@ + two_digits(minute)
                        },
                    ),
                    Frequency::Every2Hours => every_n_hours_spec(2, hour, minute),
                    Frequency::Every3Hours => every_n_hours_spec(3, hour, minute),
                    Frequency::Every4Hours => every_n_hours_spec(4, hour, minute),
                    Frequency::Every6Hours => every_n_hours_spec(6, hour, minute),
                    Frequency::Every8Hours => every_n_hours_spec(8, hour, minute),
                    Frequency::Every12Hours => every_n_hours_spec(12, hour, minute),
                    Frequency::Daily => (
                        "0 "@ + decimal(minute) + " "@ + decimal(hour) + " * * *"@,
                        "daily at "@ + clock(hour, minute),
                    ),
                    _ => {
                        let d = match day {
                            Some(d) => d,
                            None => Day::Monday,
                        };
                        (
                            "0 "@ + decimal(minute) + " "@ + decimal(hour) + " * * "@ + decimal(
                                day_number(d),
                            ),
                            "every "@ + day_name(d) + " at "@ + clock(hour, minute),
                        )
                    },
                },
            ),
        }
    }
}

/// A cadence, or the reason there is none, as characters.
pub open spec fn cadence_view(r: Result<Cadence, ScheduleError>) -> Result<
    (Seq<char>, Seq<char>),
    ScheduleFailure,
> {
    match r {
        Ok(c) => Ok((c.cron@, c.label@)),
        Err(e) => Err(e@),
    }
}

/// Appends `join_numbers(stepped(x, step, limit))` to `out`.
fn push_stepped(out: &mut Vec<char>, x: u32, step: u32, limit: u32)
    requires
        0 < step <= 60,
        x < limit <= 60,
    ensures
        final(out)@ == old(out)@ + join_numbers(stepped(x as nat, step as nat, limit as nat)),
    decreases limit - x,
{
    let ghost rest = stepped((x + step) as nat, step as nat, limit as nat);
    assert(stepped(x as nat, step as nat, limit as nat) =~= seq![x as nat] + rest);
    assert((seq![x as nat] + rest)[0] == x as nat);
    assert((seq![x as nat] + rest).drop_first() =~= rest);
    push_decimal(out, x as u64);
    if x + step < limit {
        out.push(',');
        push_stepped(out, x + step, step, limit);
        assert(rest.len() > 0);
        assert(out@ =~= old(out)@ + join_numbers(stepped(x as nat, step as nat, limit as nat)));
    } else {
        assert(rest =~= Seq::<nat>::empty());
        assert(out@ =~= old(out)@ + join_numbers(stepped(x as nat, step as nat, limit as nat)));
    }
}

fn push_clock(out: &mut Vec<char>, hour: u32, minute: u32)
    ensures
        final(out)@ == old(out)@ + clock(hour as nat, minute as nat),
{
    push_two_digits(out, hour as u64);
    out.push(':');
    push_two_digits(out, minute as u64);
    assert(out@ =~= old(out)@ + clock(hour as nat, minute as nat));
}

/// Appends `clock_list(stepped(x, step, limit), minute)` to `out`.
fn push_clock_list(out: &mut Vec<char>, x: u32, step: u32, limit: u32, minute: u32)
    requires
        0 < step <= 24,
        x < limit <= 24,
    ensures
        final(out)@ == old(out)@ + clock_list(
            stepped(x as nat, step as nat, limit as nat),
            minute as nat,
        ),
    decreases limit - x,
{
    let ghost rest = stepped((x + step) as nat, step as nat, limit as nat);
    assert(stepped(x as nat, step as nat, limit as nat) =~= seq![x as nat] + rest);
    assert((seq![x as nat] + rest)[0] == x as nat);
    assert((seq![x as nat] + rest).drop_first() =~= rest);
    push_clock(out, x, minute);
    if x + step < limit {
        push_str(out, ", ");
        push_clock_list(out, x + step, step, limit, minute);
        assert(rest.len() > 0);
        assert(out@ =~= old(out)@ + clock_list(
            stepped(x as nat, step as nat, limit as nat),
            minute as nat,
        ));
    } else {
        assert(rest =~= Seq::<nat>::empty());
        assert(out@ =~= old(out)@ + clock_list(
            stepped(x as nat, step as nat, limit as nat),
            minute as nat,
        ));
    }
}

/// "Every 30 minutes at :07" means :07 and :37 — the offset is kept rather
/// than rounded away, because someone who asked for :07 asked for it. The
/// minutes are written out in full rather than as `7-59/30`.
fn sub_hourly(step: u32, minute: u32) -> (c: Cadence)
    requires
        0 < step <= 60,
    ensures
        (c.cron@, c.label@) == sub_hourly_spec(step as nat, minute as nat),
{
    let start = minute % step;
    let mut cron: Vec<char> = Vec::new();
    push_str(&mut cron, "0 ");
    push_stepped(&mut cron, start, step, 60);
    push_str(&mut cron, " * * * *");
    let mut label: Vec<char> = Vec::new();
    push_str(&mut label, "every ");
    push_decimal(&mut label, step as u64);
    if start == 0 {
        push_str(&mut label, " minutes");
    } else {
        push_str(&mut label, " minutes, at :");
        push_two_digits(&mut label, start as u64);
    }
    let ghost want = sub_hourly_spec(step as nat, minute as nat);
    assert(cron@ =~= want.0);
    assert(label@ =~= want.1);
    Cadence { cron: string_from_chars(&cron), label: string_from_chars(&label) }
}

/// The piece the old free-text box couldn't express at all: "every 6 hours at
/// 03:30" is 03:30, 09:30, 15:30, 21:30 — not "six hours from whenever you
/// pressed enter", and not 00:00/06:00/12:00/18:00 either.
fn every_n_hours(step: u32, hour: u32, minute: u32) -> (c: Cadence)
    requires
        0 < step <= 24,
    ensures
        (c.cron@, c.label@) == every_n_hours_spec(step as nat, hour as nat, minute as nat),
{
    let start = hour % step;
    let mut cron: Vec<char> = Vec::new();
    push_str(&mut cron, "0 ");
    push_decimal(&mut cron, minute as u64);
    push_str(&mut cron, " ");
    push_stepped(&mut cron, start, step, 24);
    push_str(&mut cron, " * * *");
    let mut label: Vec<char> = Vec::new();
    push_str(&mut label, "every ");
    push_decimal(&mut label, step as u64);
    push_str(&mut label, " hours — ");
    push_clock_list(&mut label, start, step, 24, minute);
    let ghost want = every_n_hours_spec(step as nat, hour as nat, minute as nat);
    assert(cron@ =~= want.0);
    assert(label@ =~= want.1);
    Cadence { cron: string_from_chars(&cron), label: string_from_chars(&label) }
}

/// 24-hour `HH:MM`. A dot is accepted as well as a colon because plenty of
/// Europe writes `18.30`.
fn parse_at_time(raw: &str) -> (r: Result<(u32, u32), ScheduleError>)
    ensures
        match parse_at_time_spec(raw@) {
            Ok((h, m)) => r matches Ok((rh, rm)) && rh == h && rm == m,
            Err(t) => r matches Err(ScheduleError::BadTime(s)) && s@ == t,
        },
{
    let chars = chars_of(raw);
    let trimmed = trim_chars(&chars);
    let n = trimmed.len();
    let mut k: usize = 0;
    while k < n && trimmed[k] != ':' && trimmed[k] != '.'
        invariant
            k <= n == trimmed@.len(),
            separator_from(trimmed@, 0) == separator_from(trimmed@, k as int),
        decreases n - k,
    {
        k += 1;
    }
    if k == n {
        return Err(ScheduleError::BadTime(string_from_chars(&trimmed)));
    }
    let hour_part = slice_chars(&trimmed, 0, k);
    let minute_part = slice_chars(&trimmed, k + 1, n);
    assert(hour_part@ =~= trimmed@.take(k as int));
    assert(minute_part@ =~= trimmed@.skip(k + 1));
    let hour = parse_u32(&trim_chars(&hour_part));
    let minute = parse_u32(&trim_chars(&minute_part));
    match (hour, minute) {
        (Some(h), Some(m)) => {
            if h > 23 || m > 59 {
                Err(ScheduleError::BadTime(string_from_chars(&trimmed)))
            } else {
                Ok((h, m))
            }
        },
        _ => Err(ScheduleError::BadTime(string_from_chars(&trimmed))),
    }
}

/// Builds the schedule from what the user picked.
///
/// Every branch but `Custom` is a total function of a choice and an optional
/// `HH:MM`: there is no phrase to fail to parse, so the only error a normal
/// user can hit is a malformed time, and that error carries an example.
///
/// `Custom` accepts both a six-field cron expression and the English phrases
/// the scheduler understands, and is parsed again with exactly the parser the
/// scheduler uses, so a string that survives one but not the other is caught
/// now rather than at the first tick that never comes.
pub fn cadence(
    frequency: Frequency,
    at_time: Option<&str>,
    day: Option<Day>,
    custom: Option<&str>,
) -> (r: Result<Cadence, ScheduleError>)
    ensures
        cadence_view(r) == cadence_spec(
            frequency,
            match at_time {
                Some(t) => Some(t@),
                None => None,
            },
            day,
            match custom {
                Some(c) => Some(c@),
                None => None,
            },
        ),
{
    if frequency == Frequency::Custom {
        let raw_text = match custom {
            Some(c) => c,
            None => {
                return Err(ScheduleError::MissingCustom);
            },
        };
        let raw_chars = trim_chars(&chars_of(raw_text));
        if raw_chars.len() == 0 {
            return Err(ScheduleError::MissingCustom);
        }
        let raw = string_from_chars(&raw_chars);
        let cron = match schedule_to_cron(raw.as_str()) {
            Some(cron) => cron,
            None => {
                return Err(ScheduleError::BadCustom(raw));
            },
        };
        if !cron_parses(cron.as_str()) {
            return Err(ScheduleError::BadCustom(cron));
        }
        return Ok(Cadence { cron, label: raw });
    }
    let (hour, minute) = match at_time {
        Some(raw) => match parse_at_time(raw) {
            Ok(hm) => hm,
            Err(err) => {
                return Err(err);
            },
        },
        None => (0, 0),
    };
    let c = match frequency {
        Frequency::Every30Minutes => sub_hourly(30, minute),
        Frequency::Hourly => {
            let mut cron: Vec<char> = Vec::new();
            push_str(&mut cron, "0 ");
            push_decimal(&mut cron, minute as u64);
            push_str(&mut cron, " * * * *");
            let mut label: Vec<char> = Vec::new();
            if minute == 0 {
                push_str(&mut label, "hourly, on the hour");
            } else {
                push_str(&mut label, "hourly, at :");
                push_two_digits(&mut label, minute as u64);
            }
            assert(label@ =~= (if minute == 0 {
                "hourly, on the hour"@
            } else {
                "hourly, at :"@ + two_digits(minute as nat)
            }));
            assert(cron@ =~= "0 "@ + decimal(minute as nat) + " * * * *"@);
            Cadence { cron: string_from_chars(&cron), label: string_from_chars(&label) }
        },
        Frequency::Every2Hours => every_n_hours(2, hour, minute),
        Frequency::Every3Hours => every_n_hours(3, hour, minute),
        Frequency::Every4Hours => every_n_hours(4, hour, minute),
        Frequency::Every6Hours => every_n_hours(6, hour, minute),
        Frequency::Every8Hours => every_n_hours(8, hour, minute),
        Frequency::Every12Hours => every_n_hours(12, hour, minute),
        Frequency::Daily => {
            let mut cron: Vec<char> = Vec::new();
            push_str(&mut cron, "0 ");
            push_decimal(&mut cron, minute as u64);
            push_str(&mut cron, " ");
            push_decimal(&mut cron, hour as u64);
            push_str(&mut cron, " * * *");
            let mut label: Vec<char> = Vec::new();
            push_str(&mut label, "daily at ");
            push_clock(&mut label, hour, minute);
            assert(cron@ =~= "0 "@ + decimal(minute as nat) + " "@ + decimal(hour as nat)
                + " * * *"@);
            assert(label@ =~= "daily at "@ + clock(hour as nat, minute as nat));
            Cadence { cron: string_from_chars(&cron), label: string_from_chars(&label) }
        },
        _ => {
            // No day picked is Monday rather than an error: the option is
            // optional for every other frequency.
            let d = match day {
                Some(d) => d,
                None => Day::Monday,
            };
            let mut cron: Vec<char> = Vec::new();
            push_str(&mut cron, "0 ");
            push_decimal(&mut cron, minute as u64);
            push_str(&mut cron, " ");
            push_decimal(&mut cron, hour as u64);
            push_str(&mut cron, " * * ");
            push_decimal(&mut cron, d.number() as u64);
            let mut label: Vec<char> = Vec::new();
            push_str(&mut label, "every ");
            push_str(&mut label, d.name());
            push_str(&mut label, " at ");
            push_clock(&mut label, hour, minute);
            assert(cron@ =~= "0 "@ + decimal(minute as nat) + " "@ + decimal(hour as nat)
                + " * * "@ + decimal(day_number(d)));
            assert(label@ =~= "every "@ + day_name(d) + " at "@ + clock(
                hour as nat,
                minute as nat,
            ));
            Cadence { cron: string_from_chars(&cron), label: string_from_chars(&label) }
        },
    };
    Ok(c)
}

// ---------------------------------------------------------------------------
// Previewing fire times
// ---------------------------------------------------------------------------

/// What a preview of fire times amounts to: `NeverFires` when there is none,
/// and otherwise those very times.
pub open spec fn fires_or_never_spec(fires: Seq<i64>, r: Result<Vec<i64>, ScheduleError>) -> bool {
    if fires.len() == 0 {
        r matches Err(ScheduleError::NeverFires)
    } else {
        r matches Ok(f) && f@ == fires
    }
}

/// A preview with no times at all is a schedule that never fires.
pub fn fires_or_never(fires: Vec<i64>) -> (r: Result<Vec<i64>, ScheduleError>)
    ensures
        fires_or_never_spec(fires@, r),
{
    if fires.len() == 0 {
        Err(ScheduleError::NeverFires)
    } else {
        Ok(fires)
    }
}

/// The next `count` times an expression fires in the zone named `zone`, as
/// Unix seconds, counted from the present.
///
/// This is what makes the free-text path safe: an *accepted* phrase can mean
/// something the user didn't intend, and real timestamps catch that before
/// anything is stored. The present comes from the clock, so the contract says
/// what holds whichever instant it is: an expression croner refuses is
/// reported as such, and otherwise the answer is [`fires_or_never`] of the
/// expression's next `count` times after that instant, in that zone.
pub fn next_fires(expression: &str, zone: &str, count: usize) -> (r: Result<Vec<i64>, ScheduleError>)
    requires
        tz_is_known(zone@),
    ensures
        !cron_accepts(expression@) ==> (r matches Err(ScheduleError::BadCustom(s)) && s@
            == expression@),
        cron_accepts(expression@) ==> exists|now: i64|
            0 <= now <= LAST_SECOND && #[trigger] fires_or_never_spec(
                cron_next_fires(expression@, zone@, now, count),
                r,
            ),
{
    let now = now_seconds();
    let fires = match fire_times_after(expression, zone, now, count) {
        Some(fires) => fires,
        None => {
            return Err(ScheduleError::BadCustom(String::from_str(expression)));
        },
    };
    let r = fires_or_never(fires);
    assert(fires_or_never_spec(cron_next_fires(expression@, zone@, now, count), r));
    r
}

/// Whole minutes from `a` to `b` (Unix seconds), truncated toward zero as
/// chrono's `num_minutes` does.
pub open spec fn minutes_between(a: int, b: int) -> int {
    let d = b - a;
    if d >= 0 {
        d / 60
    } else {
        -((-d) / 60)
    }
}

/// The shortest gap between consecutive fire times, in minutes.
pub open spec fn shortest_gap_spec(fires: Seq<i64>) -> Option<int>
    decreases fires.len(),
{
    if fires.len() < 2 {
        None
    } else {
        let last = minutes_between(fires[fires.len() - 2] as int, fires.last() as int);
        match shortest_gap_spec(fires.drop_last()) {
            None => Some(last),
            Some(m) => Some(if m <= last {
                m
            } else {
                last
            }),
        }
    }
}

fn minutes_between_exec(a: i64, b: i64) -> (m: i64)
    ensures
        m == minutes_between(a as int, b as int),
{
    let d: i128 = (b as i128) - (a as i128);
    let m: i128 = if d >= 0 {
        d / 60
    } else {
        -((-d) / 60)
    };
    m as i64
}

/// The shortest gap between consecutive fire times, in minutes.
///
/// Sampled from the preview rather than reasoned about from the expression:
/// `*/5` and a hand-written list of twelve minutes are the same problem, and
/// only one of them looks like it.
pub fn shortest_gap_minutes(fires: &[i64]) -> (gap: Option<i64>)
    ensures
        match shortest_gap_spec(fires@) {
            Some(m) => gap matches Some(g) && g == m,
            None => gap is None,
        },
{
    let n = fires.len();
    if n < 2 {
        return None;
    }
    let mut best = minutes_between_exec(fires[0], fires[1]);
    proof {
        let two = fires@.take(2);
        assert(two.drop_last() =~= fires@.take(1));
        assert(two[0] == fires@[0] && two[1] == fires@[1]);
        assert(shortest_gap_spec(fires@.take(1)) is None);
    }
    let mut i: usize = 2;
    while i < n
        invariant
            2 <= i <= n == fires@.len(),
            shortest_gap_spec(fires@.take(i as int)) == Some(best as int),
        decreases n - i,
    {
        let g = minutes_between_exec(fires[i - 1], fires[i]);
        proof {
            let next = fires@.take(i + 1);
            assert(next.drop_last() =~= fires@.take(i as int));
            assert(next[next.len() - 2] == fires@[i - 1]);
        }
        if g < best {
            best = g;
        }
        i += 1;
    }
    assert(fires@.take(n as int) =~= fires@);
    Some(best)
}

/// One fire time as Discord timestamp markup, absolute and relative.
pub open spec fn preview_line(at: int) -> Seq<char> {
    "• <t:"@ + signed_decimal(at) + ":F> (<t:"@ + signed_decimal(at) + ":R>)"@
}

/// The fire times, one per line.
pub open spec fn preview_text(fires: Seq<i64>) -> Seq<char>
    decreases fires.len(),
{
    if fires.len() == 0 {
        Seq::empty()
    } else if fires.len() == 1 {
        preview_line(fires[0] as int)
    } else {
        preview_text(fires.drop_last()) + "\n"@ + preview_line(fires.last() as int)
    }
}

/// The fire times as Discord timestamp markup, so each reader sees them in
/// their own timezone without the bot formatting anything.
pub fn preview_lines(fires: &[i64]) -> (text: String)
    ensures
        text@ == preview_text(fires@),
{
    let mut out: Vec<char> = Vec::new();
    let n = fires.len();
    let mut i: usize = 0;
    while i < n
        invariant
            i <= n == fires@.len(),
            out@ == preview_text(fires@.take(i as int)),
        decreases n - i,
    {
        let at = fires[i];
        if i > 0 {
            push_str(&mut out, "\n");
        }
        push_str(&mut out, "• <t:");
        push_signed_decimal(&mut out, at);
        push_str(&mut out, ":F> (<t:");
        push_signed_decimal(&mut out, at);
        push_str(&mut out, ":R>)");
        proof {
            let next = fires@.take(i + 1);
            assert(next.drop_last() =~= fires@.take(i as int));
            assert(next.last() == at);
            if i == 0 {
                assert(fires@.take(0) =~= Seq::<i64>::empty());
            }
        }
        i += 1;
        assert(out@ =~= preview_text(fires@.take(i as int)));
    }
    assert(fires@.take(n as int) =~= fires@);
    string_from_chars(&out)
}

/// How a stored schedule is described: its label, or the raw expression for
/// rows created before labels existed, then the zone in brackets.
pub fn describe(label: Option<&str>, schedule: &str, timezone: &str) -> (text: String)
    ensures
        text@ == match label {
            Some(l) => l@,
            None => schedule@,
        } + " ("@ + timezone@ + ")"@,
{
    let mut out: Vec<char> = Vec::new();
    match label {
        Some(l) => push_str(&mut out, l),
        None => push_str(&mut out, schedule),
    }
    push_str(&mut out, " (");
    push_str(&mut out, timezone);
    push_str(&mut out, ")");
    string_from_chars(&out)
}

} // verus!
