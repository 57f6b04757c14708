//! What the bot asks the Foxhole War API and how it reads the answer's
//! status: the URLs, the ETag it revalidates with, and what a status means
//! given what the on-disk cache already holds.
use vstd::prelude::*;
use vstd::string::*;

use crate::text::{decimal, push_decimal, push_signed_decimal, push_str, signed_decimal, string_from_chars};

verus! {

/// Ceiling on a whole request, headers and body, in seconds. A client with
/// no timeout at all leaves a deferred interaction spinning forever when the
/// API accepts a connection and goes quiet.
pub const REQUEST_TIMEOUT_SECS: u64 = 15;

/// Separate and shorter: refusing to connect is a different failure from
/// connecting and stalling, and it should be reported faster.
pub const CONNECT_TIMEOUT_SECS: u64 = 5;

/// An HTTP status code, always in the range `100..=999` that `http` accepts.
#[derive(Clone, Copy)]
pub struct HttpStatus {
    code: u16,
}

/// The reason phrase `http` knows for a status code, if it knows one; named
/// for `http::StatusCode::canonical_reason`.
pub uninterp spec fn reason_phrase(code: u16) -> Option<Seq<char>>;

/// How `http` prints a status: the number, a space, and its reason phrase or
/// `<unknown status code>`.
pub open spec fn status_text(code: u16) -> Seq<char> {
    decimal(code as nat) + " "@ + match reason_phrase(code) {
        Some(reason) => reason,
        None => "<unknown status code>"@,
    }
}

/// `http::StatusCode`'s `Display`, for a code `from_u16` accepts. Its source
/// writes the number, a space, and `canonical_reason()` or
/// `<unknown status code>`; the reasons themselves are named, not listed.
#[verifier::external_body]
fn status_display(code: u16) -> (text: String)
    requires
        100 <= code <= 999,
    ensures
        text@ == decimal(code as nat) + " "@ + match reason_phrase(code) {
            Some(reason) => reason,
            None => "<unknown status code>"@,
        },
{
    reqwest::StatusCode::from_u16(code).unwrap().to_string()
}

impl HttpStatus {
    #[verifier::type_invariant]
    spec fn in_range(self) -> bool {
        100 <= self.code <= 999
    }

    /// The number.
    pub closed spec fn value(self) -> u16 {
        self.code
    }

    /// A status from its number, if `http` would accept it.
    pub fn new(code: u16) -> (status: Option<HttpStatus>)
        ensures
            status is Some <==> 100 <= code <= 999,
            status matches Some(s) ==> s.value() == code,
    {
        if 100 <= code && code <= 999 {
            Some(HttpStatus { code })
        } else {
            None
        }
    }

    pub fn ok() -> (status: HttpStatus)
        ensures
            status.value() == 200,
    {
        HttpStatus { code: 200 }
    }

    pub fn code(&self) -> (code: u16)
        ensures
            code == self.value(),
            100 <= code <= 999,
    {
        proof {
            use_type_invariant(self);
        }
        self.code
    }

    /// The status as `http` prints it, such as `503 Service Unavailable`.
    pub fn text(&self) -> (text: String)
        ensures
            text@ == status_text(self.value()),
    {
        proof {
            use_type_invariant(self);
        }
        status_display(self.code)
    }
}

// ---------------------------------------------------------------------------
// Revalidation
// ---------------------------------------------------------------------------

/// The `If-None-Match` value for a cached copy of `version`: the War API's
/// `version` field doubles as its ETag, and `"0"` means "we hold nothing,
/// send the body".
pub open spec fn etag_text(version: Option<i64>) -> Seq<char> {
    "\""@ + signed_decimal(
        match version {
            Some(v) => v as int,
            None => 0,
        },
    ) + "\""@
}

pub fn if_none_match(version: Option<i64>) -> (etag: String)
    ensures
        etag@ == etag_text(version),
{
    let mut out: Vec<char> = Vec::new();
    push_str(&mut out, "\"");
    push_signed_decimal(
        &mut out,
        match version {
            Some(v) => v,
            None => 0,
        },
    );
    push_str(&mut out, "\"");
    string_from_chars(&out)
}

/// What to make of an answer, given whether the cache holds a copy.
pub enum Revalidation {
    /// `304 Not Modified`: the cached copy is current.
    Cached,
    /// `200 OK`: read the body, which is fresh.
    Body,
    /// Any other status while a copy is held: serve the copy, with a warning.
    /// A transient upstream error is not worth failing over.
    Stale(HttpStatus),
    /// A `304` the cache can't back any more, or an error with nothing held.
    Failed(HttpStatus),
    /// The cache lost its copy between the read and the request: ask again,
    /// unconditionally.
    Refetch,
}

pub open spec fn revalidation_holds(
    r: Revalidation,
    code: u16,
    cached: bool,
    refetch_lost_copy: bool,
) -> bool {
    if code == 304 {
        if cached {
            r is Cached
        } else if refetch_lost_copy {
            r is Refetch
        } else {
            r matches Revalidation::Failed(s) && s.value() == 304
        }
    } else if code == 200 {
        r is Body
    } else if cached {
        r matches Revalidation::Stale(s) && s.value() == code
    } else {
        r matches Revalidation::Failed(s) && s.value() == code
    }
}

/// How one half of a region's map data is resolved. Each half is
/// revalidated against its own ETag and falls back to its own cache, so a
/// change to one endpoint never strands the other.
pub fn revalidate(status: HttpStatus, cached: bool) -> (r: Revalidation)
    ensures
        revalidation_holds(r, status.value(), cached, false),
{
    let code = status.code();
    if code == 304 {
        if cached {
            Revalidation::Cached
        } else {
            Revalidation::Failed(status)
        }
    } else if code == 200 {
        Revalidation::Body
    } else if cached {
        Revalidation::Stale(status)
    } else {
        Revalidation::Failed(status)
    }
}

/// The same for a war report, which asks again rather than failing when a
/// `304` arrives and the cached copy has gone.
pub fn revalidate_report(status: HttpStatus, cached: bool) -> (r: Revalidation)
    ensures
        revalidation_holds(r, status.value(), cached, true),
{
    let code = status.code();
    if code == 304 && !cached {
        Revalidation::Refetch
    } else {
        revalidate(status, cached)
    }
}

/// Both halves of a region answering `500` means the API is down, not that
/// one endpoint hiccupped.
pub fn api_unavailable(dynamic_status: HttpStatus, static_status: HttpStatus) -> (down: bool)
    ensures
        down == (dynamic_status.value() == 500 && static_status.value() == 500),
{
    dynamic_status.code() == 500 && static_status.code() == 500
}

// ---------------------------------------------------------------------------
// Where things are
// ---------------------------------------------------------------------------

fn joined(api_url: &str, middle: &str, name: &str, tail: &str) -> (url: String)
    ensures
        url@ == api_url@ + middle@ + name@ + tail@,
{
    let mut out: Vec<char> = Vec::new();
    push_str(&mut out, api_url);
    push_str(&mut out, middle);
    push_str(&mut out, name);
    push_str(&mut out, tail);
    string_from_chars(&out)
}

/// A region's structures, the half that changes during a war.
pub fn dynamic_url(api_url: &str, map_name: &str) -> (url: String)
    ensures
        url@ == api_url@ + "/worldconquest/maps/"@ + map_name@ + "/dynamic/public"@,
{
    joined(api_url, "/worldconquest/maps/", map_name, "/dynamic/public")
}

/// A region's labels, the half that doesn't.
pub fn static_url(api_url: &str, map_name: &str) -> (url: String)
    ensures
        url@ == api_url@ + "/worldconquest/maps/"@ + map_name@ + "/static"@,
{
    joined(api_url, "/worldconquest/maps/", map_name, "/static")
}

pub fn war_report_url(api_url: &str, map_name: &str) -> (url: String)
    ensures
        url@ == api_url@ + "/worldconquest/warReport/"@ + map_name@,
{
    proof {
        reveal_strlit("");
    }
    let url = joined(api_url, "/worldconquest/warReport/", map_name, "");
    assert(url@ =~= api_url@ + "/worldconquest/warReport/"@ + map_name@);
    url
}

/// The regions in the shard's current war.
pub fn maps_url(api_url: &str) -> (url: String)
    ensures
        url@ == api_url@ + "/worldconquest/maps"@,
{
    proof {
        reveal_strlit("");
    }
    let url = joined(api_url, "/worldconquest/maps", "", "");
    assert(url@ =~= api_url@ + "/worldconquest/maps"@);
    url
}

/// The shard's war as a whole.
pub fn war_url(api_url: &str) -> (url: String)
    ensures
        url@ == api_url@ + "/worldconquest/war"@,
{
    proof {
        reveal_strlit("");
    }
    let url = joined(api_url, "/worldconquest/war", "", "");
    assert(url@ =~= api_url@ + "/worldconquest/war"@);
    url
}

} // verus!
