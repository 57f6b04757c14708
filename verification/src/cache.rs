//! The on-disk cache of War API answers, and what a shard's region list
//! says about whether it can serve anything.
//!
//! Nothing cached is durable state: it exists to serve `304 Not Modified`
//! revalidation, so a miss only ever means a full fetch.
use vstd::prelude::*;
use vstd::string::*;

use crate::db::{shard_name, Shard};
use crate::http::{status_text, HttpStatus};
use crate::text::{decimal, push_str, string_from_chars};

verus! {

/// Every directory the cache writes under, created before each write.
pub fn cache_dirs() -> (dirs: [&'static str; 5])
    ensures
        dirs@[0]@ == "./cache"@,
        dirs@[1]@ == "./cache/map_choices"@,
        dirs@[2]@ == "./cache/static"@,
        dirs@[3]@ == "./cache/dynamic"@,
        dirs@[4]@ == "./cache/war_reports"@,
{
    ["./cache", "./cache/map_choices", "./cache/static", "./cache/dynamic", "./cache/war_reports"]
}

fn path_of(before: &str, map_name: &str, middle: &str, shard: &str) -> (path: String)
    ensures
        path@ == before@ + map_name@ + middle@ + shard@ + ".json"@,
{
    let mut out: Vec<char> = Vec::new();
    push_str(&mut out, before);
    push_str(&mut out, map_name);
    push_str(&mut out, middle);
    push_str(&mut out, shard);
    push_str(&mut out, ".json");
    string_from_chars(&out)
}

/// Where a shard's region list is kept.
pub fn maps_cache_path(shard: Shard) -> (path: String)
    ensures
        path@ == "./cache/map_choices/maps-"@ + shard_name(shard) + ".json"@,
{
    proof {
        reveal_strlit("");
    }
    let path = path_of("./cache/map_choices/maps-", "", "", shard.as_str());
    assert(path@ =~= "./cache/map_choices/maps-"@ + shard_name(shard) + ".json"@);
    path
}

/// Where a region's dynamic half is kept. The two halves have separate files
/// and separate ETags, so either can be revalidated on its own.
pub fn dynamic_cache_path(map_name: &str, shard: &str) -> (path: String)
    ensures
        path@ == "./cache/dynamic/Dynamic_"@ + map_name@ + "-"@ + shard@ + ".json"@,
{
    path_of("./cache/dynamic/Dynamic_", map_name, "-", shard)
}

pub fn static_cache_path(map_name: &str, shard: &str) -> (path: String)
    ensures
        path@ == "./cache/static/Static_"@ + map_name@ + "-"@ + shard@ + ".json"@,
{
    path_of("./cache/static/Static_", map_name, "-", shard)
}

pub fn war_report_cache_path(map_name: &str, shard: &str) -> (path: String)
    ensures
        path@ == "./cache/war_reports/Report_"@ + map_name@ + "-"@ + shard@ + ".json"@,
{
    path_of("./cache/war_reports/Report_", map_name, "-", shard)
}

/// Whether a shard can actually serve requests, as its region list reports
/// it. The region list is what every map command needs first, and a shard
/// that lists no regions can serve none of them, whatever the reason.
pub enum ShardHealth {
    /// Serving a war, with this many regions in it.
    Ready(u64),
    /// Answered, but listed no regions. Nothing to render.
    NoRegions,
    /// Answered with something that isn't a region list.
    Unavailable(HttpStatus),
    /// Never answered: DNS, refused connection, TLS, or a timeout; the short
    /// reason.
    Unreachable(String),
}

/// What a region-list answer means: its status, and how many regions it
/// listed if it decoded at all.
pub open spec fn health_of(health: ShardHealth, code: u16, listed: Option<u64>) -> bool {
    if code != 200 {
        health matches ShardHealth::Unavailable(s) && s.value() == code
    } else {
        match listed {
            None => health matches ShardHealth::Unavailable(s) && s.value() == 200,
            Some(0) => health is NoRegions,
            Some(n) => health == ShardHealth::Ready(n),
        }
    }
}

/// Reads a region-list answer. Only `Ready` is worth caching: a shard
/// between wars answers with an empty list, and writing that over the list
/// already held would blank every autocomplete until the next war.
pub fn shard_health(status: HttpStatus, listed: Option<u64>) -> (health: ShardHealth)
    ensures
        health_of(health, status.value(), listed),
        health matches ShardHealth::Ready(n) ==> n > 0,
{
    if status.code() != 200 {
        return ShardHealth::Unavailable(status);
    }
    match listed {
        None => ShardHealth::Unavailable(HttpStatus::ok()),
        Some(0) => ShardHealth::NoRegions,
        Some(n) => ShardHealth::Ready(n),
    }
}

/// What to tell a user who picked a shard, or `None` if it is fine. Each
/// case says whether the shard is down or the bot can't get to it, because
/// the two have different answers.
pub open spec fn explain_text(health: ShardHealth, name: Seq<char>) -> Option<Seq<char>> {
    match health {
        ShardHealth::Ready(_) => None,
        ShardHealth::NoRegions => Some(
            "Shard **"@ + name
                + "** isn't running a war right now, so there would be nothing to show. Pick another shard, or set this one up once its next war starts."@,
        ),
        ShardHealth::Unavailable(s) => Some(
            "The Foxhole API returned `"@ + status_text(s.value()) + "` for shard **"@ + name
                + "**. It's likely down for the moment — try another shard, or try again shortly."@,
        ),
        ShardHealth::Unreachable(e) => Some(
            "Couldn't reach shard **"@ + name + "** at all (`"@ + e@
                + "`). Either the Foxhole API is unreachable from here, or that shard has gone away."@,
        ),
    }
}

impl ShardHealth {
    pub fn explain(&self, shard: Shard) -> (problem: Option<String>)
        ensures
            match explain_text(*self, shard_name(shard)) {
                Some(t) => problem matches Some(p) && p@ == t,
                None => problem is None,
            },
    {
        let name = shard.as_str();
        let mut out: Vec<char> = Vec::new();
        match self {
            ShardHealth::Ready(_) => {
                return None;
            },
            ShardHealth::NoRegions => {
                push_str(&mut out, "Shard **");
                push_str(&mut out, name);
                push_str(
                    &mut out,
                    "** isn't running a war right now, so there would be nothing to show. Pick another shard, or set this one up once its next war starts.",
                );
            },
            ShardHealth::Unavailable(s) => {
                push_str(&mut out, "The Foxhole API returned `");
                let status = s.text();
                push_str(&mut out, status.as_str());
                push_str(&mut out, "` for shard **");
                push_str(&mut out, name);
                push_str(
                    &mut out,
                    "**. It's likely down for the moment — try another shard, or try again shortly.",
                );
            },
            ShardHealth::Unreachable(e) => {
                push_str(&mut out, "Couldn't reach shard **");
                push_str(&mut out, name);
                push_str(&mut out, "** at all (`");
                push_str(&mut out, e.as_str());
                push_str(
                    &mut out,
                    "`). Either the Foxhole API is unreachable from here, or that shard has gone away.",
                );
            },
        }
        Some(string_from_chars(&out))
    }
}

/// The short form of a transport failure, for a user-facing message: a
/// timeout or a refused connection by name, otherwise the last link of the
/// error's chain, which is the one that names the fault.
pub fn short_reason(timed_out: bool, connect_failed: bool, root_cause: String) -> (reason: String)
    ensures
        reason@ == if timed_out {
            "timed out"@
        } else if connect_failed {
            "could not connect"@
        } else {
            root_cause@
        },
{
    if timed_out {
        String::from_str("timed out")
    } else if connect_failed {
        String::from_str("could not connect")
    } else {
        root_cause
    }
}

} // verus!
