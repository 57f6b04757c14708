//! Where log records go, and how long the files are kept: the settings read
//! from the environment, the filter each sink starts from, and which files
//! the daily prune may delete.
//!
//! The console carries this crate's own messages and nothing below a warning
//! from anyone else; the plain file is the console's twin; the verbose file
//! takes everything the dependencies say.
use vstd::prelude::*;
use vstd::string::*;

use crate::text::{
    chars_of, decimal, ends_with, parse_u64, parse_unsigned, push_decimal, push_str, slice_chars,
    starts_with, string_from_chars, trim, trim_chars,
};

verus! {

/// Written to when `LOG_DIR` is unset, relative to the working directory.
pub const DEFAULT_DIR: &'static str = "./logs";

/// `<prefix><date>.log`, rotated daily. The verbose file is the same name
/// with a suffix, so the pair sorts together in a listing.
pub const FILE_PREFIX: &'static str = "foxholewarbot.";
pub const VERBOSE_PREFIX: &'static str = "foxholewarbot-verbose.";
pub const DATE_SUFFIX: &'static str = "%Y-%m-%d.log";

/// Days of logs kept: long enough to cover "it broke over the weekend and I
/// looked on Monday", short enough that a volume nobody watches doesn't grow
/// forever.
pub const DEFAULT_RETENTION_DAYS: u64 = 14;

/// Where the log files ended up, for the daily prune job.
pub struct LogFiles {
    pub dir: String,
    /// `0` means "keep everything".
    pub retention_days: u64,
}

// ---------------------------------------------------------------------------
// Settings
// ---------------------------------------------------------------------------

/// The directory to write log files in, from `LOG_DIR`: the default when it
/// is unset, and no file logging at all when it is set but blank — the one way
/// to say "console only" without a second variable.
pub fn log_dir(setting: Option<&str>) -> (dir: Option<String>)
    ensures
        match setting {
            None => dir matches Some(d) && d@ == "./logs"@,
            Some(v) => if trim(v@).len() == 0 {
                dir is None
            } else {
                dir matches Some(d) && d@ == trim(v@)
            },
        },
{
    match setting {
        None => Some(String::from_str(DEFAULT_DIR)),
        Some(v) => {
            let trimmed = trim_chars(&chars_of(v));
            if trimmed.len() == 0 {
                None
            } else {
                Some(string_from_chars(&trimmed))
            }
        },
    }
}

/// The retention window, from `LOG_RETENTION_DAYS`.
pub struct Retention {
    pub days: u64,
    /// The setting was there but wasn't a number, so the default applies.
    pub invalid: bool,
}

/// Blank counts as unset, since a compose file passes an unset host variable
/// through as `""`; a value that isn't a number falls back to the default,
/// with a warning.
pub fn retention_days(setting: Option<&str>) -> (r: Retention)
    ensures
        match setting {
            None => r.days == DEFAULT_RETENTION_DAYS && !r.invalid,
            Some(v) => if trim(v@).len() == 0 {
                r.days == DEFAULT_RETENTION_DAYS && !r.invalid
            } else {
                match parse_unsigned(trim(v@), u64::MAX as int) {
                    Some(n) => r.days == n && !r.invalid,
                    None => r.days == DEFAULT_RETENTION_DAYS && r.invalid,
                }
            },
        },
{
    match setting {
        None => Retention { days: DEFAULT_RETENTION_DAYS, invalid: false },
        Some(v) => {
            let trimmed = trim_chars(&chars_of(v));
            if trimmed.len() == 0 {
                return Retention { days: DEFAULT_RETENTION_DAYS, invalid: false };
            }
            match parse_u64(&trimmed) {
                Some(n) => Retention { days: n, invalid: false },
                None => Retention { days: DEFAULT_RETENTION_DAYS, invalid: true },
            }
        },
    }
}

/// A filter setting, or the default when it is unset or blank.
pub fn filter_setting(setting: Option<&str>, default: &str) -> (spec: String)
    ensures
        spec@ == match setting {
            Some(v) => if trim(v@).len() == 0 {
                default@
            } else {
                v@
            },
            None => default@,
        },
{
    match setting {
        Some(v) => {
            let trimmed = trim_chars(&chars_of(v));
            if trimmed.len() == 0 {
                String::from_str(default)
            } else {
                String::from_str(v)
            }
        },
        None => String::from_str(default),
    }
}

/// The first `::`-separated part of a module path, from `i` on.
pub open spec fn path_head_from(path: Seq<char>, i: int) -> Seq<char>
    decreases path.len() - i,
{
    if i < 0 || i + 1 >= path.len() {
        path
    } else if path[i] == ':' && path[i + 1] == ':' {
        path.take(i)
    } else {
        path_head_from(path, i + 1)
    }
}

/// This crate's log target: the first segment of a module path, so the
/// filters don't name the crate in a literal a rename would leave behind.
pub fn crate_target(qualified: &str) -> (target: String)
    ensures
        target@ == path_head_from(qualified@, 0),
{
    let chars = chars_of(qualified);
    let mut i: usize = 0;
    while chars.len() - i > 1
        invariant
            i <= chars@.len(),
            chars@ == qualified@,
            path_head_from(qualified@, 0) == path_head_from(qualified@, i as int),
        decreases chars.len() - i,
    {
        if chars[i] == ':' && chars[i + 1] == ':' {
            let head = slice_chars(&chars, 0, i);
            assert(head@ =~= qualified@.take(i as int));
            return string_from_chars(&head);
        }
        i += 1;
    }
    string_from_chars(&chars)
}

/// The console's default filter: warnings from everyone, this crate at
/// `info`. `tracing::span=off` drops the span records serenity's tracing
/// bridge emits several times a second, which carry nothing but their name.
pub fn console_filter(root: &str) -> (spec: String)
    ensures
        spec@ == "warn,"@ + root@ + "=info,tracing::span=off"@,
{
    let mut out: Vec<char> = Vec::new();
    push_str(&mut out, "warn,");
    push_str(&mut out, root);
    push_str(&mut out, "=info,tracing::span=off");
    string_from_chars(&out)
}

/// The verbose file's default filter: everything at `debug`, this crate at
/// `trace`, and the same span noise dropped.
pub fn verbose_filter(root: &str) -> (spec: String)
    ensures
        spec@ == "debug,"@ + root@ + "=trace,tracing::span=off"@,
{
    let mut out: Vec<char> = Vec::new();
    push_str(&mut out, "debug,");
    push_str(&mut out, root);
    push_str(&mut out, "=trace,tracing::span=off");
    string_from_chars(&out)
}

/// The most verbose level a filter string admits, as a rank from `0` (off)
/// through `5` (trace); named for what `env_filter` makes of the string.
pub uninterp spec fn filter_level(spec: Seq<char>) -> u8;

/// `env_filter::Builder::new().parse(spec).build().filter()`, as the rank of
/// the `log::LevelFilter` it returns (`Off` 0 up to `Trace` 5, the order
/// `LevelFilter` derives).
#[verifier::external_body]
fn spec_level(spec: &str) -> (rank: u8)
    ensures
        rank == filter_level(spec@),
        rank <= 5,
{
    match env_filter::Builder::new().parse(spec).build().filter() {
        log::LevelFilter::Off => 0,
        log::LevelFilter::Error => 1,
        log::LevelFilter::Warn => 2,
        log::LevelFilter::Info => 3,
        log::LevelFilter::Debug => 4,
        log::LevelFilter::Trace => 5,
    }
}

/// The highest of the levels, or `Info` (3) for none.
pub open spec fn max_rank(specs: Seq<&str>, n: int) -> u8
    decreases n,
{
    if n <= 0 {
        3
    } else if n == 1 {
        filter_level(specs[0]@)
    } else {
        let before = max_rank(specs, n - 1);
        let here = filter_level(specs[n - 1]@);
        if here > before {
            here
        } else {
            before
        }
    }
}

/// The level the root logger must admit: the most verbose any sink asks
/// for, since a record rejected there never reaches a sink's own filter.
pub fn max_level(specs: &[&str]) -> (rank: u8)
    ensures
        rank == max_rank(specs@, specs@.len() as int),
{
    if specs.len() == 0 {
        return 3;
    }
    let mut best = spec_level(specs[0]);
    let mut i: usize = 1;
    while i < specs.len()
        invariant
            1 <= i <= specs@.len(),
            best == max_rank(specs@, i as int),
        decreases specs.len() - i,
    {
        let here = spec_level(specs[i]);
        if here > best {
            best = here;
        }
        i += 1;
    }
    best
}

// ---------------------------------------------------------------------------
// Pruning
// ---------------------------------------------------------------------------

/// Only files this module writes. The directory may be a bind mount with
/// other things in it, and deleting by age alone in a directory we don't own
/// is how a log pruner eats something else.
pub open spec fn ours(name: Seq<char>) -> bool {
    (starts_with(name, "foxholewarbot."@) || starts_with(name, "foxholewarbot-verbose."@))
        && ends_with(name, ".log"@)
}

pub fn is_ours(name: &str) -> (r: bool)
    ensures
        r == ours(name@),
{
    let chars = chars_of(name);
    let plain = chars_of(FILE_PREFIX);
    let verbose = chars_of(VERBOSE_PREFIX);
    let suffix = chars_of(".log");
    (crate::text::starts_with_chars(&chars, &plain) || crate::text::starts_with_chars(
        &chars,
        &verbose,
    )) && crate::text::ends_with_chars(&chars, &suffix)
}

/// Seconds in a day.
pub const DAY_SECS: u64 = 86400;

/// What the prune does with one directory entry.
pub enum PruneStep {
    /// Not a log file of ours (or a name that isn't text): left alone.
    Skip,
    /// Ours, and within the window.
    Keep,
    /// Ours, and older than the window.
    Remove,
    /// Ours, but its age couldn't be read: left alone, with a warning.
    AgeUnknown,
}

/// The decision for one entry, by modification time — not the date in the
/// name: the file being written is young by both measures, and an mtime is
/// one parse fewer to get wrong. Times are Unix seconds.
pub open spec fn prune_step_for(
    name: Option<Seq<char>>,
    modified: Option<i64>,
    now: i64,
    retention_days: u64,
) -> PruneStep {
    match name {
        None => PruneStep::Skip,
        Some(n) => if !ours(n) {
            PruneStep::Skip
        } else {
            match modified {
                None => PruneStep::AgeUnknown,
                Some(m) => if m < now - retention_days * DAY_SECS {
                    PruneStep::Remove
                } else {
                    PruneStep::Keep
                },
            }
        },
    }
}

pub fn prune_step(name: Option<&str>, modified: Option<i64>, now: i64, retention_days: u64) -> (step:
    PruneStep)
    requires
        retention_days * DAY_SECS <= u64::MAX,
    ensures
        step == prune_step_for(
            match name {
                Some(n) => Some(n@),
                None => None,
            },
            modified,
            now,
            retention_days,
        ),
{
    match name {
        None => PruneStep::Skip,
        Some(n) => {
            if !is_ours(n) {
                return PruneStep::Skip;
            }
            match modified {
                None => PruneStep::AgeUnknown,
                Some(m) => {
                    let window: u64 = retention_days * DAY_SECS;
                    if (m as i128) < (now as i128) - (window as i128) {
                        PruneStep::Remove
                    } else {
                        PruneStep::Keep
                    }
                },
            }
        },
    }
}

/// A retention of zero keeps everything, so the directory isn't even read.
pub fn prunes_anything(logs: &LogFiles) -> (prunes: bool)
    ensures
        prunes == (logs.retention_days != 0),
{
    logs.retention_days != 0
}

/// One entry of the log directory: its file name, when it reads as text,
/// and when it was last modified, in Unix seconds, when that could be read.
pub struct LogEntry {
    pub name: Option<String>,
    pub modified: Option<i64>,
}

/// Whether the prune deletes this entry: a file of ours older than the window.
pub open spec fn entry_expires(entry: LogEntry, now: i64, retention_days: u64) -> bool {
    prune_step_for(
        match entry.name {
            Some(n) => Some(n@),
            None => None,
        },
        entry.modified,
        now,
        retention_days,
    ) is Remove
}

/// The entries the daily prune deletes, by their place in the listing and in
/// listing order: with a window of `0` none at all, and otherwise exactly this
/// bot's log files older than the window.
pub fn files_to_prune(logs: &LogFiles, entries: &Vec<LogEntry>, now: i64) -> (doomed: Vec<usize>)
    requires
        logs.retention_days * DAY_SECS <= u64::MAX,
    ensures
        logs.retention_days == 0 ==> doomed@.len() == 0,
        forall|i: int|
            0 <= i < doomed@.len() ==> #[trigger] doomed@[i] < entries@.len() && entry_expires(
                entries@[doomed@[i] as int],
                now,
                logs.retention_days,
            ),
        forall|i: int, j: int| 0 <= i < j < doomed@.len() ==> doomed@[i] < doomed@[j],
        logs.retention_days != 0 ==> forall|k: int|
            0 <= k < entries@.len() && entry_expires(#[trigger] entries@[k], now, logs.retention_days)
                ==> doomed@.contains(k as usize),
{
    let mut doomed: Vec<usize> = Vec::new();
    if !prunes_anything(logs) {
        return doomed;
    }
    let mut k: usize = 0;
    while k < entries.len()
        invariant
            k <= entries@.len(),
            logs.retention_days * DAY_SECS <= u64::MAX,
            forall|i: int|
                0 <= i < doomed@.len() ==> #[trigger] doomed@[i] < k && entry_expires(
                    entries@[doomed@[i] as int],
                    now,
                    logs.retention_days,
                ),
            forall|i: int, j: int| 0 <= i < j < doomed@.len() ==> doomed@[i] < doomed@[j],
            forall|m: int|
                0 <= m < k && entry_expires(#[trigger] entries@[m], now, logs.retention_days)
                    ==> doomed@.contains(m as usize),
        decreases entries@.len() - k,
    {
        let entry = &entries[k];
        let name = match &entry.name {
            Some(n) => Some(n.as_str()),
            None => None,
        };
        let step = prune_step(name, entry.modified, now, logs.retention_days);
        let ghost before = doomed@;
        if let PruneStep::Remove = step {
            doomed.push(k);
            proof {
                assert forall|m: int|
                    0 <= m < k + 1 && entry_expires(#[trigger] entries@[m], now, logs.retention_days)
                        implies doomed@.contains(m as usize) by {
                    if m < k {
                        let w = choose|w: int| 0 <= w < before.len() && before[w] == m as usize;
                        assert(doomed@[w] == m as usize);
                    } else {
                        assert(doomed@[before.len() as int] == k);
                    }
                }
            }
        }
        k += 1;
    }
    doomed
}

/// What the log says about a prune: nothing when nothing went, how many
/// went, or why the directory couldn't be tidied.
pub enum PruneNote {
    Info(String),
    Warn(String),
}

/// The outcome of a prune — the number of files removed, or why it failed —
/// as the startup pass and the nightly job both report it, kept in one place
/// so they can't drift.
pub fn prune_and_report(logs: &LogFiles, outcome: Result<u64, String>) -> (note: Option<PruneNote>)
    ensures
        match outcome {
            Ok(0) => note is None,
            Ok(n) => note matches Some(PruneNote::Info(t)) && t@ == "removed "@ + decimal(n as nat)
                + " log file(s) past the retention window"@,
            Err(e) => note matches Some(PruneNote::Warn(t)) && t@ == "could not tidy "@ + logs.dir@
                + ": "@ + e@,
        },
{
    match outcome {
        Ok(0) => None,
        Ok(n) => {
            let mut out: Vec<char> = Vec::new();
            push_str(&mut out, "removed ");
            push_decimal(&mut out, n);
            push_str(&mut out, " log file(s) past the retention window");
            Some(PruneNote::Info(string_from_chars(&out)))
        },
        Err(e) => {
            let mut out: Vec<char> = Vec::new();
            push_str(&mut out, "could not tidy ");
            push_str(&mut out, logs.dir.as_str());
            push_str(&mut out, ": ");
            push_str(&mut out, e.as_str());
            Some(PruneNote::Warn(string_from_chars(&out)))
        },
    }
}

} // verus!
