//! Dates and times as the bot prints them. The calendar arithmetic is
//! chrono's; what is decided here is what a reader sees when it fails.
use chrono::Datelike;
use vstd::prelude::*;

verus! {

/// What chrono prints for a Foxhole API millisecond timestamp in UTC, as
/// `%Y %m %d %H:%M:%S`, or `None` when the instant is outside chrono's range.
pub uninterp spec fn chrono_timestamp_text(millis: i64) -> Option<Seq<char>>;

/// `chrono::DateTime::from_timestamp_millis`, formatted with
/// `%Y %m %d %H:%M:%S`. Claims only that the result is chrono's text for
/// these milliseconds, named `chrono_timestamp_text`.
#[verifier::external_body]
fn chrono_format_millis(millis: i64) -> (text: Option<String>)
    ensures
        text is None <==> chrono_timestamp_text(millis) is None,
        text matches Some(t) ==> chrono_timestamp_text(millis) == Some(t@),
{
    match chrono::DateTime::from_timestamp_millis(millis) {
        Some(ts) => Some(ts.format("%Y %m %d %H:%M:%S").to_string()),
        None => None,
    }
}

/// The formatted time, or `unknown` for one the calendar couldn't place.
pub open spec fn timestamp_text(millis: i64) -> Seq<char> {
    match chrono_timestamp_text(millis) {
        Some(text) => text,
        None => "unknown"@,
    }
}

/// A formatted timestamp, or `unknown` when there is none.
pub fn timestamp_or_unknown(formatted: Option<String>) -> (text: String)
    ensures
        text@ == match formatted {
            Some(t) => t@,
            None => "unknown"@,
        },
{
    match formatted {
        Some(t) => t,
        None => String::from_str("unknown"),
    }
}

/// Formats a Foxhole API millisecond timestamp.
///
/// The API can report a timestamp outside chrono's representable range; that
/// prints as `unknown` rather than taking the command down with it.
pub fn format_timestamp(millis: i64) -> (text: String)
    ensures
        text@ == timestamp_text(millis),
{
    timestamp_or_unknown(chrono_format_millis(millis))
}

// ---------------------------------------------------------------------------
// Usage buckets: days and weeks, newest first
// ---------------------------------------------------------------------------

/// How chrono writes the date numbered `days` (counting 1 January of year 1
/// as day 1) as `%Y-%m-%d`, or `None` when no date has that number.
pub uninterp spec fn chrono_day_label(days: i64) -> Option<Seq<char>>;

/// `NaiveDate::from_num_days_from_ce_opt`, formatted with `%Y-%m-%d`; a
/// number outside `i32` has no date. Claims only that the result is chrono's,
/// named `chrono_day_label`.
#[verifier::external_body]
fn day_label(days: i64) -> (label: Option<String>)
    ensures
        label is None <==> chrono_day_label(days) is None,
        label matches Some(l) ==> chrono_day_label(days) == Some(l@),
{
    match i32::try_from(days) {
        Ok(days) => match chrono::NaiveDate::from_num_days_from_ce_opt(days) {
            Some(date) => Some(date.format("%Y-%m-%d").to_string()),
            None => None,
        },
        Err(_) => None,
    }
}

/// Today's date in UTC, as its day number (as `num_days_from_ce` counts) and
/// its weekday counted from Monday. Read from the clock, so what is claimed is
/// how the two agree: `num_days_from_ce` numbers 1 January of year 1, a
/// Monday, as day 1, so the weekday is the day number less one, modulo seven.
#[verifier::external_body]
fn today() -> (today: (i64, u32))
    ensures
        i32::MIN <= today.0 <= i32::MAX,
        today.1 < 7,
        today.1 == (today.0 - 1) % 7,
{
    let date = chrono::Utc::now().date_naive();
    (date.num_days_from_ce() as i64, date.weekday().num_days_from_monday())
}

/// The labels of `count` dates stepping back by `step` days from `start`,
/// skipping any that have no date.
pub open spec fn labels_back(start: int, step: int, count: nat) -> Seq<Seq<char>>
    decreases count,
{
    if count == 0 {
        Seq::empty()
    } else {
        let n = (count - 1) as nat;
        let here = match chrono_day_label((start - n * step) as i64) {
            Some(label) => seq![label],
            None => Seq::empty(),
        };
        labels_back(start, step, n) + here
    }
}

fn labels_from(start: i64, step: i64, count: u32) -> (labels: Vec<String>)
    requires
        -0x1_0000_0000_0000 <= start <= 0x1_0000_0000_0000,
        0 < step <= 7,
    ensures
        labels@.map_values(|l: String| l@) == labels_back(start as int, step as int, count as nat),
{
    let mut labels: Vec<String> = Vec::new();
    let mut back: u32 = 0;
    assert(labels@.map_values(|l: String| l@) =~= labels_back(start as int, step as int, 0));
    while back < count
        invariant
            back <= count,
            -0x1_0000_0000_0000 <= start <= 0x1_0000_0000_0000,
            0 < step <= 7,
            labels@.map_values(|l: String| l@) == labels_back(start as int, step as int, back as nat),
        decreases count - back,
    {
        let ghost before = labels@.map_values(|l: String| l@);
        assert(0 <= back * step <= 7 * 0xffff_ffff) by (nonlinear_arith)
            requires
                back <= 0xffff_ffff,
                0 < step <= 7,
        ;
        let day = start - (back as i64) * step;
        match day_label(day) {
            Some(label) => {
                labels.push(label);
                assert(labels@.map_values(|l: String| l@) =~= before.push(labels@[labels@.len() - 1]@));
            },
            None => {},
        }
        back += 1;
        assert(labels@.map_values(|l: String| l@) =~= labels_back(start as int, step as int, back as nat));
    }
    labels
}

/// The day labels a table of `days` rows shows, newest first, from the day
/// numbered `today` — the same `YYYY-MM-DD` the usage query buckets by.
pub fn days_back(today: i64, days: u32) -> (labels: Vec<String>)
    requires
        i32::MIN <= today <= i32::MAX,
    ensures
        labels@.map_values(|l: String| l@) == labels_back(today as int, 1, days as nat),
{
    labels_from(today, 1, days)
}

/// The same for weeks: labelled by the Monday each starts on, because that
/// is what the query's week truncation returns.
pub fn weeks_back(today: i64, weekday: u32, weeks: u32) -> (labels: Vec<String>)
    requires
        i32::MIN <= today <= i32::MAX,
        weekday < 7,
    ensures
        labels@.map_values(|l: String| l@) == labels_back(today - weekday, 7, weeks as nat),
{
    labels_from(today - weekday as i64, 7, weeks)
}

/// The day labels ending today. The date comes from the clock, so the
/// contract says which rule the labels follow from whichever day it is.
pub fn day_buckets(days: u32) -> (labels: Vec<String>)
    ensures
        exists|today: int| labels@.map_values(|l: String| l@) == labels_back(today, 1, days as nat),
{
    let (t, _) = today();
    days_back(t, days)
}

/// The Monday of the week day number `day` falls in: day 1 is a Monday.
pub open spec fn monday_of(day: int) -> int {
    day - (day - 1) % 7
}

/// The week labels ending with this week's Monday. The date comes from the
/// clock, so the contract says which rule the labels follow from whichever
/// day it is: weekly steps back from that day's Monday.
pub fn week_buckets(weeks: u32) -> (labels: Vec<String>)
    ensures
        exists|today: int|
            labels@.map_values(|l: String| l@) == labels_back(#[trigger] monday_of(today), 7, weeks as nat),
{
    let (t, weekday) = today();
    let labels = weeks_back(t, weekday, weeks);
    assert(t - weekday == monday_of(t as int));
    labels
}

} // verus!
