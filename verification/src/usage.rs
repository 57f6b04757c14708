//! Usage counters: what gets counted under what name, which column of the
//! `/usage-stats` table each name lands in, and the table itself.
//!
//! Two things feed the same tally. A slash command is counted under its
//! qualified name, and a scheduled report is counted by the tick that
//! delivered it under one of the two synthetic names below.
use vstd::prelude::*;
use vstd::string::*;

use crate::db::{UsageBucket, UsageOverview};
use crate::embed::{Embed, EmbedShape};
use crate::text::{
    chars_of, lemma_utf8_len_concat, pad_left, pad_right, push_chars, push_padded_left,
    push_padded_right, push_signed_decimal, push_str, replace_char, replace_char_chars,
    signed_decimal, signed_decimal_chars, str_eq, string_from_chars, utf8_len, utf8_len_of,
};

verus! {

/// A scheduled single-region report that was actually delivered.
pub const SCHEDULED_REPORT: &'static str = "scheduled-report";

/// A scheduled **full-map** report that was delivered. Split from
/// [`SCHEDULED_REPORT`] because the two cost wildly different amounts.
pub const SCHEDULED_FULL_MAP: &'static str = "scheduled-full-map";

/// Commands whose subject is scheduling, grouped into one column.
pub fn schedule_commands() -> (names: [&'static str; 4])
    ensures
        names@.len() == 4,
        names@[0]@ == "schedule-report"@,
        names@[1]@ == "remove-report"@,
        names@[2]@ == "schedule-help"@,
        names@[3]@ == "request-full-map-schedule"@,
{
    ["schedule-report", "remove-report", "schedule-help", "request-full-map-schedule"]
}

/// The dashboard columns: get-map, full-map, reports, schedule commands,
/// other.
pub const COLUMN_COUNT: usize = 5;

/// The column a recorded command name belongs in, once the snake_case names
/// older rows were recorded under are read as their dashed equivalents.
pub open spec fn column_spec(command: Seq<char>) -> nat {
    let n = replace_char(command, '_', '-');
    if n == "get-map"@ {
        0
    } else if n == "full-map"@ {
        1
    } else if n == "scheduled-report"@ || n == "scheduled-full-map"@ {
        2
    } else if n == "schedule-report"@ || n == "remove-report"@ || n == "schedule-help"@ || n
        == "request-full-map-schedule"@ {
        3
    } else {
        4
    }
}

/// Which column a recorded command name belongs in.
///
/// The delivery names and the scheduling commands are deliberately different
/// columns: one is people setting schedules up, the other is the reports
/// those schedules produced.
pub fn column_of(command: &str) -> (column: usize)
    ensures
        column == column_spec(command@),
        column < COLUMN_COUNT,
{
    let normalized = string_from_chars(&replace_char_chars(&chars_of(command), '_', '-'));
    let n = normalized.as_str();
    if str_eq(n, "get-map") {
        0
    } else if str_eq(n, "full-map") {
        1
    } else if str_eq(n, SCHEDULED_REPORT) || str_eq(n, SCHEDULED_FULL_MAP) {
        2
    } else {
        let names = schedule_commands();
        if str_eq(n, names[0]) || str_eq(n, names[1]) || str_eq(n, names[2]) || str_eq(
            n,
            names[3],
        ) {
            3
        } else {
            4
        }
    }
}

/// Classifying a name is the same whether it was recorded snake_case or
/// dashed.
pub proof fn column_ignores_the_spelling_era(command: Seq<char>)
    ensures
        column_spec(replace_char(command, '_', '-')) == column_spec(command),
{
    let once = replace_char(command, '_', '-');
    assert(replace_char(once, '_', '-') =~= once);
}

/// Discord's cap on an embed field's value, in bytes.
pub const FIELD_LIMIT: usize = 1024;

/// The width of each count column, which is also the length of its name.
pub open spec fn column_width(column: nat) -> nat {
    if column == 1 {
        8
    } else if column == 4 {
        5
    } else {
        7
    }
}

/// The sum of `uses` over the rows for `bucket` whose command lands in
/// `column`.
pub open spec fn tally(rows: Seq<UsageBucket>, bucket: Seq<char>, column: nat) -> int
    decreases rows.len(),
{
    if rows.len() == 0 {
        0
    } else {
        let row = rows.last();
        let counted = row.bucket@ == bucket && (row.command matches Some(c) && column_spec(c@)
            == column);
        tally(rows.drop_last(), bucket, column) + if counted {
            row.uses as int
        } else {
            0
        }
    }
}

/// Every running total the pivot keeps, at every point of the scan, fits an
/// `i64`.
pub open spec fn tallies_fit(rows: Seq<UsageBucket>) -> bool {
    forall|k: int, bucket: Seq<char>, column: nat|
        0 <= k <= rows.len() && column < COLUMN_COUNT ==> i64::MIN <= #[trigger] tally(
            rows.take(k),
            bucket,
            column,
        ) <= i64::MAX
}

/// The distinct-server count of the bucket's total row — the last one, if the
/// rows carry several — or 0 when it has none.
pub open spec fn bucket_servers(rows: Seq<UsageBucket>, bucket: Seq<char>) -> i64
    decreases rows.len(),
{
    if rows.len() == 0 {
        0
    } else if rows.last().bucket@ == bucket && rows.last().command is None {
        rows.last().servers
    } else {
        bucket_servers(rows.drop_last(), bucket)
    }
}

/// ` {value:>width}`.
pub open spec fn cell(value: int, width: nat) -> Seq<char> {
    " "@ + pad_left(signed_decimal(value), width, ' ')
}

/// The count cells of columns `from` onward.
pub open spec fn cells_from(rows: Seq<UsageBucket>, bucket: Seq<char>, from: nat) -> Seq<char>
    decreases COLUMN_COUNT - from,
{
    if from >= COLUMN_COUNT {
        Seq::empty()
    } else {
        cell(tally(rows, bucket, from), column_width(from)) + cells_from(rows, bucket, from + 1)
    }
}

/// One bucket's row of the table: the label, five counts, the servers.
pub open spec fn table_line(rows: Seq<UsageBucket>, bucket: Seq<char>) -> Seq<char> {
    pad_right(bucket, 10, ' ') + cells_from(rows, bucket, 0) + cell(
        bucket_servers(rows, bucket) as int,
        7,
    ) + "\n"@
}

/// The fence and the column headings.
pub open spec fn table_header() -> Seq<char> {
    "```\n"@ + pad_right("bucket"@, 10, ' ') + " get-map"@ + " full-map"@ + " reports"@
        + " sch-cmd"@ + " other"@ + " servers\n"@
}

/// The rows from bucket `i` on, appended to `acc` while the closing fence
/// still fits in the field.
pub open spec fn table_rows(
    acc: Seq<char>,
    rows: Seq<UsageBucket>,
    buckets: Seq<String>,
    i: int,
) -> Seq<char>
    decreases buckets.len() - i,
{
    if i < 0 || i >= buckets.len() {
        acc
    } else {
        let line = table_line(rows, buckets[i]@);
        if utf8_len(acc) + utf8_len(line) + 3 > FIELD_LIMIT {
            acc
        } else {
            table_rows(acc + line, rows, buckets, i + 1)
        }
    }
}

/// The whole table, fenced.
pub open spec fn table_spec(rows: Seq<UsageBucket>, buckets: Seq<String>) -> Seq<char> {
    table_rows(table_header(), rows, buckets, 0) + "```"@
}

/// `tally` for one bucket and column, scanning every row.
fn tally_of(rows: &[UsageBucket], bucket: &str, column: usize) -> (total: i64)
    requires
        tallies_fit(rows@),
        column < COLUMN_COUNT,
    ensures
        total == tally(rows@, bucket@, column as nat),
{
    let mut total: i64 = 0;
    let mut k: usize = 0;
    assert(rows@.take(0) =~= Seq::<UsageBucket>::empty());
    while k < rows.len()
        invariant
            k <= rows@.len(),
            column < COLUMN_COUNT,
            tallies_fit(rows@),
            total == tally(rows@.take(k as int), bucket@, column as nat),
        decreases rows@.len() - k,
    {
        let row = &rows[k];
        proof {
            let next = rows@.take(k + 1);
            assert(next.drop_last() =~= rows@.take(k as int));
            assert(next.last() == rows@[k as int]);
            assert(i64::MIN <= tally(rows@.take(k + 1), bucket@, column as nat) <= i64::MAX);
        }
        let counts = match &row.command {
            Some(command) => str_eq(row.bucket.as_str(), bucket) && column_of(command.as_str())
                == column,
            None => false,
        };
        if counts {
            total = total + row.uses;
        }
        k += 1;
    }
    assert(rows@.take(rows@.len() as int) =~= rows@);
    total
}

/// A bucket no row carries tallies to nothing.
proof fn lemma_tally_of_absent_bucket(rows: Seq<UsageBucket>, bucket: Seq<char>, column: nat)
    requires
        forall|j: int| 0 <= j < rows.len() ==> (#[trigger] rows[j]).bucket@ != bucket,
    ensures
        tally(rows, bucket, column) == 0,
    decreases rows.len(),
{
    if rows.len() > 0 {
        let rest = rows.drop_last();
        assert forall|j: int| 0 <= j < rest.len() implies (#[trigger] rest[j]).bucket@ != bucket by {
            assert(rest[j] == rows[j]);
        }
        assert(rows.last() == rows[rows.len() - 1]);
        lemma_tally_of_absent_bucket(rest, bucket, column);
    }
}

/// Whether every running total of the pivot fits an `i64`, so that
/// [`bucket_counts`] and [`table`] can count these rows.
pub fn tallies_fit_check(rows: &[UsageBucket]) -> (ok: bool)
    ensures
        ok == tallies_fit(rows@),
{
    let n = rows.len();
    let mut j: usize = 0;
    while j < n
        invariant
            j <= n == rows@.len(),
            forall|jj: int, c: nat, k: int|
                0 <= jj < j && c < COLUMN_COUNT && 0 <= k <= n ==> i64::MIN <= #[trigger] tally(
                    rows@.take(k),
                    rows@[jj].bucket@,
                    c,
                ) <= i64::MAX,
        decreases n - j,
    {
        let bucket = rows[j].bucket.as_str();
        let mut c: usize = 0;
        while c < COLUMN_COUNT
            invariant
                j < n == rows@.len(),
                c <= COLUMN_COUNT,
                bucket@ == rows@[j as int].bucket@,
                forall|jj: int, cc: nat, k: int|
                    0 <= jj < j && cc < COLUMN_COUNT && 0 <= k <= n ==> i64::MIN <= #[trigger] tally(
                        rows@.take(k),
                        rows@[jj].bucket@,
                        cc,
                    ) <= i64::MAX,
                forall|cc: nat, k: int|
                    cc < c && 0 <= k <= n ==> i64::MIN <= #[trigger] tally(
                        rows@.take(k),
                        bucket@,
                        cc,
                    ) <= i64::MAX,
            decreases COLUMN_COUNT - c,
        {
            let mut total: i64 = 0;
            let mut k: usize = 0;
            assert(rows@.take(0) =~= Seq::<UsageBucket>::empty());
            while k < n
                invariant
                    k <= n == rows@.len(),
                    c < COLUMN_COUNT,
                    total == tally(rows@.take(k as int), bucket@, c as nat),
                    forall|kk: int|
                        0 <= kk <= k ==> i64::MIN <= #[trigger] tally(
                            rows@.take(kk),
                            bucket@,
                            c as nat,
                        ) <= i64::MAX,
                decreases n - k,
            {
                let row = &rows[k];
                proof {
                    let next = rows@.take(k + 1);
                    assert(next.drop_last() =~= rows@.take(k as int));
                    assert(next.last() == rows@[k as int]);
                }
                let counts = match &row.command {
                    Some(command) => str_eq(row.bucket.as_str(), bucket) && column_of(
                        command.as_str(),
                    ) == c,
                    None => false,
                };
                let next: i128 = if counts {
                    total as i128 + row.uses as i128
                } else {
                    total as i128
                };
                if next < i64::MIN as i128 || next > i64::MAX as i128 {
                    proof {
                        assert(tally(rows@.take(k + 1), bucket@, c as nat) == next);
                        assert(!(i64::MIN <= tally(rows@.take(k + 1), bucket@, c as nat)
                            <= i64::MAX));
                    }
                    return false;
                }
                total = next as i64;
                k += 1;
            }
            c += 1;
        }
        j += 1;
    }
    assert forall|k: int, b: Seq<char>, c: nat|
        0 <= k <= rows@.len() && c < COLUMN_COUNT implies i64::MIN <= #[trigger] tally(
            rows@.take(k),
            b,
            c,
        ) <= i64::MAX by {
        if exists|jj: int| 0 <= jj < n && rows@[jj].bucket@ == b {
            let jj = choose|jj: int| 0 <= jj < n && rows@[jj].bucket@ == b;
            assert(i64::MIN <= tally(rows@.take(k), rows@[jj].bucket@, c) <= i64::MAX);
        } else {
            let pre = rows@.take(k);
            assert forall|i: int| 0 <= i < pre.len() implies (#[trigger] pre[i]).bucket@ != b by {
                assert(pre[i] == rows@[i]);
            }
            lemma_tally_of_absent_bucket(pre, b, c);
        }
    }
    true
}

/// One bucket's row of the dashboard: the five column counts, and the
/// distinct servers from its total row. A bucket with no rows is all zeroes.
///
/// Each bucket scans the rows rather than reading a pivot keyed by the
/// bucket's text: the rows are a few dozen at most, and the scan gives each
/// tally exactly.
pub fn bucket_counts(rows: &[UsageBucket], bucket: &str) -> (counts: ([i64; 5], i64))
    requires
        tallies_fit(rows@),
    ensures
        forall|c: int| 0 <= c < 5 ==> counts.0@[c] == tally(rows@, bucket@, c as nat),
        counts.1 == bucket_servers(rows@, bucket@),
{
    let columns = [
        tally_of(rows, bucket, 0),
        tally_of(rows, bucket, 1),
        tally_of(rows, bucket, 2),
        tally_of(rows, bucket, 3),
        tally_of(rows, bucket, 4),
    ];
    proof {
        assert forall|c: int| 0 <= c < 5 implies columns@[c] == tally(rows@, bucket@, c as nat) by {
            if c == 0 {
            } else if c == 1 {
            } else if c == 2 {
            } else if c == 3 {
            } else {
            }
        }
    }
    (columns, servers_of(rows, bucket))
}

/// `bucket_servers`, scanning every row.
fn servers_of(rows: &[UsageBucket], bucket: &str) -> (servers: i64)
    ensures
        servers == bucket_servers(rows@, bucket@),
{
    let mut servers: i64 = 0;
    let mut k: usize = 0;
    assert(rows@.take(0) =~= Seq::<UsageBucket>::empty());
    while k < rows.len()
        invariant
            k <= rows@.len(),
            servers == bucket_servers(rows@.take(k as int), bucket@),
        decreases rows@.len() - k,
    {
        let row = &rows[k];
        proof {
            let next = rows@.take(k + 1);
            assert(next.drop_last() =~= rows@.take(k as int));
            assert(next.last() == rows@[k as int]);
        }
        if row.command.is_none() && str_eq(row.bucket.as_str(), bucket) {
            servers = row.servers;
        }
        k += 1;
    }
    assert(rows@.take(rows@.len() as int) =~= rows@);
    servers
}

fn push_cell(out: &mut Vec<char>, value: i64, width: usize)
    ensures
        final(out)@ == old(out)@ + cell(value as int, width as nat),
{
    out.push(' ');
    let digits = signed_decimal_chars(value);
    push_padded_left(out, &digits, width, ' ');
    proof {
        reveal_strlit(" ");
    }
    assert(out@ =~= old(out)@ + cell(value as int, width as nat));
}

fn width_of(column: usize) -> (w: usize)
    ensures
        w == column_width(column as nat),
{
    if column == 1 {
        8
    } else if column == 4 {
        5
    } else {
        7
    }
}

/// `table_line` for one bucket.
fn line_for(rows: &[UsageBucket], bucket: &String) -> (line: Vec<char>)
    requires
        tallies_fit(rows@),
    ensures
        line@ == table_line(rows@, bucket@),
{
    let mut line: Vec<char> = Vec::new();
    push_padded_right(&mut line, &chars_of(bucket.as_str()), 10, ' ');
    let ghost head = line@;
    let mut column: usize = 0;
    while column < COLUMN_COUNT
        invariant
            column <= COLUMN_COUNT,
            tallies_fit(rows@),
            line@ + cells_from(rows@, bucket@, column as nat) == head + cells_from(
                rows@,
                bucket@,
                0,
            ),
        decreases COLUMN_COUNT - column,
    {
        let value = tally_of(rows, bucket.as_str(), column);
        let ghost before = line@;
        push_cell(&mut line, value, width_of(column));
        assert(cells_from(rows@, bucket@, column as nat) =~= cell(
            value as int,
            column_width(column as nat),
        ) + cells_from(rows@, bucket@, (column + 1) as nat));
        assert(before + cells_from(rows@, bucket@, column as nat) =~= line@ + cells_from(
            rows@,
            bucket@,
            (column + 1) as nat,
        ));
        column += 1;
    }
    assert(cells_from(rows@, bucket@, COLUMN_COUNT as nat) =~= Seq::<char>::empty());
    assert(line@ =~= head + cells_from(rows@, bucket@, 0));
    let servers = servers_of(rows, bucket.as_str());
    push_cell(&mut line, servers, 7);
    push_str(&mut line, "\n");
    assert(line@ =~= table_line(rows@, bucket@));
    line
}

/// A fixed-width table in a code block, one row per requested bucket and
/// newest first, which is the only alignment Discord gives you.
///
/// Every bucket asked for appears whether or not the query returned anything
/// for it: a quiet day is a row of zeroes, not a missing row. The counts are
/// pivoted out of one row per (bucket, command); the servers column comes
/// from the bucket's total row, never from adding up the per-command ones.
///
/// Rows that would push the field past Discord's limit are dropped whole
/// rather than cut, so the closing fence is always there.
pub fn table(rows: &[UsageBucket], buckets: &[String]) -> (text: String)
    requires
        tallies_fit(rows@),
    ensures
        text@ == table_spec(rows@, buckets@),
        utf8_len(text@) <= FIELD_LIMIT,
{
    let mut out: Vec<char> = Vec::new();
    push_str(&mut out, "```\n");
    push_padded_right(&mut out, &chars_of("bucket"), 10, ' ');
    push_str(&mut out, " get-map");
    push_str(&mut out, " full-map");
    push_str(&mut out, " reports");
    push_str(&mut out, " sch-cmd");
    push_str(&mut out, " other");
    push_str(&mut out, " servers\n");
    assert(out@ =~= table_header());
    let mut out_len = utf8_len_of(&out);
    proof {
        reveal_strlit("```\n");
        reveal_strlit("bucket");
        reveal_strlit(" get-map");
        reveal_strlit(" full-map");
        reveal_strlit(" reports");
        reveal_strlit(" sch-cmd");
        reveal_strlit(" other");
        reveal_strlit(" servers\n");
        assert(out@.len() == 4 + 10 + 8 + 9 + 8 + 8 + 6 + 9);
        assert(crate::text::is_ascii_text(out@));
        lemma_ascii_utf8_len(out@);
    }
    let n = buckets.len();
    let mut i: usize = 0;
    while i < n
        invariant
            i <= n == buckets@.len(),
            tallies_fit(rows@),
            out_len == utf8_len(out@),
            out_len + 3 <= FIELD_LIMIT,
            table_rows(table_header(), rows@, buckets@, 0) == table_rows(
                out@,
                rows@,
                buckets@,
                i as int,
            ),
        ensures
            out_len == utf8_len(out@),
            out_len + 3 <= FIELD_LIMIT,
            table_rows(table_header(), rows@, buckets@, 0) == out@,
        decreases n - i,
    {
        let line = line_for(rows, &buckets[i]);
        let line_len = utf8_len_of(&line);
        assert(line@.len() == line.len());
        assert(line_len <= 4 * (usize::MAX as int));
        if out_len + line_len + 3 > FIELD_LIMIT as u128 {
            break;
        }
        let ghost before = out@;
        push_chars(&mut out, &line);
        proof {
            lemma_utf8_len_concat(before, line@);
        }
        out_len = out_len + line_len;
        i += 1;
    }
    let ghost body = out@;
    push_str(&mut out, "```");
    proof {
        reveal_strlit("```");
        assert(crate::text::is_ascii_text("```"@));
        lemma_ascii_utf8_len("```"@);
        lemma_utf8_len_concat(body, "```"@);
        assert(body == table_rows(table_header(), rows@, buckets@, 0));
    }
    string_from_chars(&out)
}

proof fn lemma_ascii_utf8_len(s: Seq<char>)
    requires
        crate::text::is_ascii_text(s),
    ensures
        utf8_len(s) == s.len(),
    decreases s.len(),
{
    if s.len() > 0 {
        assert(crate::text::is_ascii_text(s.drop_last())) by {
            assert forall|i: int| 0 <= i < s.drop_last().len() implies (#[trigger] s.drop_last()[i] as u32) < 0x80 by {
                assert(s.drop_last()[i] == s[i]);
            }
        }
        lemma_ascii_utf8_len(s.drop_last());
        assert((s[s.len() - 1] as u32) < 0x80);
    }
}

/// The standing picture, above the tables: what is set up right now, as
/// opposed to what happened.
pub open spec fn describe_spec(overview: UsageOverview) -> Seq<char> {
    "**Set up right now**\nServers configured: **"@ + signed_decimal(overview.guilds as int)
        + "** · approved for full-map schedules: **"@ + signed_decimal(
        overview.approved_guilds as int,
    ) + "**\nLive schedules: **"@ + signed_decimal(overview.schedules as int) + "** (**"@
        + signed_decimal(overview.full_map_schedules as int) + "** full-map) across **"@
        + signed_decimal(overview.scheduling_guilds as int) + "** server(s)"@
}

pub fn describe(overview: &UsageOverview) -> (text: String)
    ensures
        text@ == describe_spec(*overview),
{
    let mut out: Vec<char> = Vec::new();
    push_str(&mut out, "**Set up right now**\nServers configured: **");
    push_signed_decimal(&mut out, overview.guilds);
    push_str(&mut out, "** · approved for full-map schedules: **");
    push_signed_decimal(&mut out, overview.approved_guilds);
    push_str(&mut out, "**\nLive schedules: **");
    push_signed_decimal(&mut out, overview.schedules);
    push_str(&mut out, "** (**");
    push_signed_decimal(&mut out, overview.full_map_schedules);
    push_str(&mut out, "** full-map) across **");
    push_signed_decimal(&mut out, overview.scheduling_guilds);
    push_str(&mut out, "** server(s)");
    string_from_chars(&out)
}

/// Days and weeks shown when the options are left out: a week is the unit
/// people compare against, and four weeks is a month of trend.
pub const DEFAULT_DAYS: u32 = 7;
pub const DEFAULT_WEEKS: u32 = 4;

/// Caps that keep the tables inside one embed field.
pub const MAX_DAYS: u32 = 14;
pub const MAX_WEEKS: u32 = 8;

/// A requested span, defaulted and clamped to `1..=max`. Declared limits are
/// enforced by Discord, which means by a client the bot doesn't control, so
/// they are enforced here as well.
pub fn usage_span(requested: Option<u32>, default: u32, max: u32) -> (span: u32)
    requires
        1 <= max,
    ensures
        span == {
            let wanted = match requested {
                Some(n) => n,
                None => default,
            };
            if wanted < 1 {
                1
            } else if wanted > max {
                max
            } else {
                wanted
            }
        },
{
    let wanted = match requested {
        Some(n) => n,
        None => default,
    };
    if wanted < 1 {
        1
    } else if wanted > max {
        max
    } else {
        wanted
    }
}

pub const NOT_A_REVIEWER: &'static str = "Only someone in the bot's `REVIEWER_IDS` can read the usage stats.";

/// The image the usage report is attached as.
pub const USAGE_FILE_NAME: &'static str = "usage-stats.png";

/// The usage report's embed: the standing picture in words, the tables as
/// the attached image.
pub fn usage_embed(overview: &UsageOverview) -> (embed: Embed)
    ensures
        embed@ == (EmbedShape {
            title: Some("Usage report - all servers"@),
            color: (90u8, 160u8, 220u8),
            description: Some(describe_spec(*overview)),
            fields: Seq::empty(),
            image: Some("attachment://usage-stats.png"@),
            footer: Some(
                "Counts are per server per day, kept for 90 days. Nothing here is per user."@,
            ),
        }),
{
    let embed = Embed {
        title: Some(String::from_str("Usage report - all servers")),
        color: (90, 160, 220),
        description: Some(describe(overview)),
        fields: Vec::new(),
        image: Some(String::from_str("attachment://usage-stats.png")),
        footer: Some(
            String::from_str(
                "Counts are per server per day, kept for 90 days. Nothing here is per user.",
            ),
        ),
    };
    assert(embed@.fields =~= Seq::<(Seq<char>, Seq<char>, bool)>::empty());
    embed
}

} // verus!
