//! The decisions around fetching and rendering a map, for one region or the
//! whole world: which spelling of a region to fetch, which art to draw it
//! on, when a full map is an outage rather than a render, and what the user
//! is told when something fails. The pixels are drawn elsewhere.
use vstd::prelude::*;
use vstd::string::*;

use crate::foxhole::TeamId;
use crate::http::{status_text, HttpStatus};
use crate::regions::{
    asset_name, display_name, display_name_spec, find, find_spec, same_region, same_region_spec,
    Region,
};
use crate::text::{decimal, push_decimal, push_signed_decimal, push_str, signed_decimal, str_eq, string_from_chars};

verus! {

/// Region fetches in flight at once during a full-map render. The War API
/// publishes no rate limit; eight finishes 53 regions in a handful of round
/// trips without ever looking like a flood.
pub const FETCH_CONCURRENCY: usize = 8;

/// Discord's attachment ceiling for an unboosted upload, in bytes.
pub const ATTACHMENT_LIMIT: usize = 10 * 1024 * 1024;

/// A finished render.
pub struct RenderedMap {
    /// The encoded PNG, handed straight to Discord as an in-memory
    /// attachment, so concurrent renders can't overwrite each other's output.
    pub png: Vec<u8>,
    /// When the API last updated the data drawn, in its milliseconds.
    pub last_updated: i64,
}

/// Where a drawn object sits relative to the API coordinate it belongs to.
#[derive(Debug, Clone, Copy, PartialEq, Eq, Structural)]
pub enum Anchor {
    /// Centered on its coordinate: the correct reading of the API's
    /// normalized points, and the default.
    Center,
    /// The coordinate is the object's top-left corner, as renders used to be
    /// placed; kept only as a comparison escape hatch.
    TopLeft,
}

/// Why a map couldn't be produced.
pub enum MapError {
    ApiUnavailable,
    /// The request never got an answer; what the client said.
    Request(String),
    /// The answer couldn't be decoded; what the decoder said.
    Decode(String),
    Status(HttpStatus),
    /// Drawing failed; what the renderer said.
    Render(String),
    TaskPanicked,
    /// The encoded render's size in bytes.
    TooLarge(u64),
}

pub open spec fn map_error_text(err: MapError) -> Seq<char> {
    match err {
        MapError::ApiUnavailable => "the Foxhole API is currently unavailable"@,
        MapError::Request(e) => "could not reach the Foxhole API: "@ + e@,
        MapError::Decode(e) => "the Foxhole API returned data we could not read: "@ + e@,
        MapError::Status(s) => "the Foxhole API returned "@ + status_text(s.value()),
        MapError::Render(e) => "rendering failed: "@ + e@,
        MapError::TaskPanicked => "the render task did not finish"@,
        MapError::TooLarge(n) => "the render came out at "@ + decimal(n as nat)
            + " bytes, over Discord's upload limit"@,
    }
}

fn prefixed(prefix: &str, rest: &str) -> (text: String)
    ensures
        text@ == prefix@ + rest@,
{
    let mut out: Vec<char> = Vec::new();
    push_str(&mut out, prefix);
    push_str(&mut out, rest);
    string_from_chars(&out)
}

impl MapError {
    pub fn message(&self) -> (text: String)
        ensures
            text@ == map_error_text(*self),
    {
        match self {
            MapError::ApiUnavailable => String::from_str("the Foxhole API is currently unavailable"),
            MapError::Request(e) => prefixed("could not reach the Foxhole API: ", e.as_str()),
            MapError::Decode(e) => prefixed(
                "the Foxhole API returned data we could not read: ",
                e.as_str(),
            ),
            MapError::Status(s) => {
                let status = s.text();
                prefixed("the Foxhole API returned ", status.as_str())
            },
            MapError::Render(e) => prefixed("rendering failed: ", e.as_str()),
            MapError::TaskPanicked => String::from_str("the render task did not finish"),
            MapError::TooLarge(n) => {
                let mut out: Vec<char> = Vec::new();
                push_str(&mut out, "the render came out at ");
                push_decimal(&mut out, *n);
                push_str(&mut out, " bytes, over Discord's upload limit");
                string_from_chars(&out)
            },
        }
    }
}

/// What `/get-map` says when a region couldn't be produced. Every failure
/// replies: a deferred interaction with no answer is a spinner forever.
pub open spec fn get_map_reply_text(err: MapError, shard_name: Seq<char>, map_name: Seq<char>) -> Seq<
    char,
> {
    match err {
        MapError::ApiUnavailable => "Shard **"@ + shard_name
            + "** isn't responding right now. Try again shortly, or switch shards with `/set-guild-settings`."@,
        MapError::Render(_) => "Couldn't render that region. If `"@ + display_name_spec(map_name)
            + "` should exist, please report it."@,
        _ => "Couldn't fetch that region's data. Try again shortly."@,
    }
}

pub fn get_map_reply(err: &MapError, shard_name: &str, map_name: &str) -> (text: String)
    ensures
        text@ == get_map_reply_text(*err, shard_name@, map_name@),
{
    match err {
        MapError::ApiUnavailable => {
            let mut out: Vec<char> = Vec::new();
            push_str(&mut out, "Shard **");
            push_str(&mut out, shard_name);
            push_str(
                &mut out,
                "** isn't responding right now. Try again shortly, or switch shards with `/set-guild-settings`.",
            );
            string_from_chars(&out)
        },
        MapError::Render(_) => {
            let mut out: Vec<char> = Vec::new();
            push_str(&mut out, "Couldn't render that region. If `");
            let shown = display_name(map_name);
            push_str(&mut out, shown.as_str());
            push_str(&mut out, "` should exist, please report it.");
            string_from_chars(&out)
        },
        _ => String::from_str("Couldn't fetch that region's data. Try again shortly."),
    }
}

// ---------------------------------------------------------------------------
// Which region, which art
// ---------------------------------------------------------------------------

/// The background asset for a region, named the way the *assets* spell it —
/// never the way the caller spelled it, so only names in the table can
/// address art.
pub open spec fn background_path_text(map_name: Seq<char>) -> Seq<char> {
    "./assets/Maps/Map"@ + match find_spec(map_name) {
        Some(region) => region.api_name@,
        None => map_name,
    } + ".TGA"@
}

pub fn background_path(map_name: &str) -> (path: String)
    ensures
        path@ == background_path_text(map_name@),
{
    let mut out: Vec<char> = Vec::new();
    push_str(&mut out, "./assets/Maps/Map");
    push_str(&mut out, asset_name(map_name));
    push_str(&mut out, ".TGA");
    string_from_chars(&out)
}

/// The first name in `live`, from `i` on, that names `region`.
pub open spec fn live_match_from(live: Seq<String>, region: Seq<char>, i: int) -> Option<Seq<char>>
    decreases live.len() - i,
{
    if i < 0 || i >= live.len() {
        None
    } else if same_region_spec(live[i]@, region) {
        Some(live[i]@)
    } else {
        live_match_from(live, region, i + 1)
    }
}

/// What the API calls a region, or `None` if it isn't in play. With no
/// cached list to disagree with, the table's spelling is the best guess.
pub open spec fn live_name_spec(live: Option<Vec<String>>, region: Seq<char>) -> Option<Seq<char>> {
    match live {
        Some(list) => live_match_from(list@, region, 0),
        None => Some(region),
    }
}

/// Matched leniently — the API spells Marban Hollow `MarbanHollow` while
/// its assets and the table say `MarbanHollowHex` — and the API's own
/// spelling comes back out, because that is what its URLs answer to.
pub fn live_name(live: &Option<Vec<String>>, region: &Region) -> (name: Option<String>)
    ensures
        match live_name_spec(*live, region.api_name@) {
            Some(n) => name matches Some(s) && s@ == n,
            None => name is None,
        },
{
    match live {
        Some(list) => {
            let mut i: usize = 0;
            while i < list.len()
                invariant
                    i <= list@.len(),
                    *live == Some(*list),
                    live_match_from(list@, region.api_name@, 0) == live_match_from(
                        list@,
                        region.api_name@,
                        i as int,
                    ),
                decreases list.len() - i,
            {
                if same_region(list[i].as_str(), region.api_name) {
                    return Some(list[i].clone());
                }
                i += 1;
            }
            None
        },
        None => Some(String::from_str(region.api_name)),
    }
}

/// The regions the API lists, if it lists any: an empty cached list means a
/// cold start, which is a different thing from "the war has no regions".
pub fn live_regions(listed: Vec<String>) -> (live: Option<Vec<String>>)
    ensures
        listed@.len() == 0 ==> live is None,
        listed@.len() > 0 ==> live == Some(listed),
{
    if listed.len() == 0 {
        None
    } else {
        Some(listed)
    }
}

/// The listed names the table can't place: a region Siege Camp shipped
/// before the table learned it. Nothing can be done at render time, but it
/// is worth a warning.
pub fn unplaced_regions(listed: &Vec<String>) -> (unknown: Vec<String>)
    ensures
        unknown@.map_values(|s: String| s@) == listed@.map_values(|s: String| s@).filter(
            |name: Seq<char>| find_spec(name) is None,
        ),
{
    let mut unknown: Vec<String> = Vec::new();
    let mut i: usize = 0;
    while i < listed.len()
        invariant
            i <= listed@.len(),
            unknown@.map_values(|s: String| s@) == listed@.take(i as int).map_values(
                |s: String| s@,
            ).filter(|name: Seq<char>| find_spec(name) is None),
        decreases listed.len() - i,
    {
        let ghost before = listed@.take(i as int).map_values(|s: String| s@);
        let ghost name = listed@[i as int]@;
        assert(listed@.take(i + 1).map_values(|s: String| s@) =~= before.push(name));
        proof {
            before.lemma_filter_push(name, |n: Seq<char>| find_spec(n) is None);
        }
        if find(listed[i].as_str()).is_none() {
            unknown.push(listed[i].clone());
            assert(unknown@.map_values(|s: String| s@) =~= before.filter(
                |n: Seq<char>| find_spec(n) is None,
            ).push(name));
        }
        i += 1;
    }
    assert(listed@.take(listed@.len() as int) =~= listed@);
    unknown
}

// ---------------------------------------------------------------------------
// The full map
// ---------------------------------------------------------------------------

/// The newest update among the regions that resolved, starting from zero.
pub open spec fn newest_from(updates: Seq<Option<i64>>, n: int) -> i64
    decreases n,
{
    if n <= 0 {
        0
    } else {
        let before = newest_from(updates, n - 1);
        match updates[n - 1] {
            Some(t) => if t > before {
                t
            } else {
                before
            },
            None => before,
        }
    }
}

/// A full map's last-updated time, from each region's (`None` for a region
/// whose data didn't arrive): the newest held, because the user asked "when
/// was this data from" — or `None` when nothing resolved at all, which is an
/// outage dressed up as a render and is reported as one.
pub open spec fn full_map_updated(updates: Seq<Option<i64>>) -> Option<i64> {
    if forall|i: int| 0 <= i < updates.len() ==> #[trigger] updates[i] is None {
        None
    } else {
        Some(newest_from(updates, updates.len() as int))
    }
}

pub fn full_map_last_updated(updates: &[Option<i64>]) -> (updated: Option<i64>)
    ensures
        updated == full_map_updated(updates@),
{
    let mut newest: i64 = 0;
    let mut any = false;
    let mut i: usize = 0;
    while i < updates.len()
        invariant
            i <= updates@.len(),
            newest == newest_from(updates@, i as int),
            any == exists|k: int| 0 <= k < i && #[trigger] updates@[k] is Some,
        decreases updates.len() - i,
    {
        match updates[i] {
            Some(t) => {
                if t > newest {
                    newest = t;
                }
                any = true;
                assert(updates@[i as int] is Some);
            },
            None => {},
        }
        i += 1;
        assert(any == exists|k: int| 0 <= k < i && #[trigger] updates@[k] is Some) by {
            if updates@[i - 1] is Some {
                assert(updates@[i - 1] is Some);
            }
        }
    }
    if any {
        assert(exists|k: int| 0 <= k < updates@.len() && #[trigger] updates@[k] is Some);
        Some(newest)
    } else {
        None
    }
}

/// Whether an encoded render can be uploaded. The full map is scaled to fit
/// well under the limit, but its encoded size depends on how busy it is, so
/// it is checked rather than assumed.
pub fn fits_upload(len: usize) -> (fits: bool)
    ensures
        fits == (len <= ATTACHMENT_LIMIT),
{
    len <= ATTACHMENT_LIMIT
}

// ---------------------------------------------------------------------------
// Icons
// ---------------------------------------------------------------------------

/// The team as the icon files spell it.
pub open spec fn team_word(team: TeamId) -> Seq<char> {
    match team {
        TeamId::Colonials => "Colonials"@,
        TeamId::Neutral => "None"@,
        TeamId::Wardens => "Wardens"@,
    }
}

/// The icon for a structure type held by a team.
pub open spec fn icon_path_text(icon_type: i64, team: TeamId) -> Seq<char> {
    "./assets/MapIcons/"@ + signed_decimal(icon_type as int) + team_word(team) + ".png"@
}

pub fn icon_path(icon_type: i64, team: TeamId) -> (path: String)
    ensures
        path@ == icon_path_text(icon_type, team),
{
    let mut out: Vec<char> = Vec::new();
    push_str(&mut out, "./assets/MapIcons/");
    push_signed_decimal(&mut out, icon_type);
    match team {
        TeamId::Colonials => push_str(&mut out, "Colonials"),
        TeamId::Neutral => push_str(&mut out, "None"),
        TeamId::Wardens => push_str(&mut out, "Wardens"),
    }
    push_str(&mut out, ".png");
    string_from_chars(&out)
}

/// Where the icons of one structure type live, before the team's part.
pub open spec fn icon_stem(icon_type: i64) -> Seq<char> {
    "./assets/MapIcons/"@ + signed_decimal(icon_type as int)
}

/// An icon's file names the team that holds the item, spelled as the API's
/// team names print: a Colonial structure is drawn from `…Colonials.png`, a
/// Warden one from `…Wardens.png`, an unowned one from `…None.png` — so the
/// icons of two teams are never the same file.
pub proof fn icons_name_their_team(icon_type: i64, a: TeamId, b: TeamId)
    ensures
        icon_path_text(icon_type, TeamId::Colonials) == icon_stem(icon_type) + "Colonials.png"@,
        icon_path_text(icon_type, TeamId::Wardens) == icon_stem(icon_type) + "Wardens.png"@,
        icon_path_text(icon_type, TeamId::Neutral) == icon_stem(icon_type) + "None.png"@,
        icon_path_text(icon_type, a) == icon_path_text(icon_type, b) ==> a == b,
{
    reveal_strlit("./assets/MapIcons/");
    reveal_strlit("Colonials");
    reveal_strlit("Wardens");
    reveal_strlit("None");
    reveal_strlit(".png");
    reveal_strlit("Colonials.png");
    reveal_strlit("Wardens.png");
    reveal_strlit("None.png");
    let stem = icon_stem(icon_type);
    assert(icon_path_text(icon_type, TeamId::Colonials) =~= stem + "Colonials.png"@);
    assert(icon_path_text(icon_type, TeamId::Wardens) =~= stem + "Wardens.png"@);
    assert(icon_path_text(icon_type, TeamId::Neutral) =~= stem + "None.png"@);
    assert(icon_path_text(icon_type, a).len() == stem.len() + team_word(a).len() + 4);
    assert(icon_path_text(icon_type, b).len() == stem.len() + team_word(b).len() + 4);
}

/// Drawn in place of an icon Foxhole shipped before the art did.
pub const DEBUG_ICON: &'static str = "./assets/MapIcons/DebugIcon.png";

/// The missing icons already warned about. The fact is about the asset set,
/// not about one render — a missing type is missing in every region on every
/// render — so it is said once, not once per structure.
///
/// Held as a list with a set view: the paths are few, one per icon type at
/// most.
pub struct IconWarnings {
    seen: Vec<String>,
}

impl View for IconWarnings {
    type V = Set<Seq<char>>;

    closed spec fn view(&self) -> Set<Seq<char>> {
        self.seen@.map_values(|s: String| s@).to_set()
    }
}

impl IconWarnings {
    pub fn new() -> (warnings: IconWarnings)
        ensures
            warnings@ == Set::<Seq<char>>::empty(),
    {
        let warnings = IconWarnings { seen: Vec::new() };
        assert(warnings@ =~= Set::<Seq<char>>::empty());
        warnings
    }

    /// Records a missing icon, and says whether this is the first time — the
    /// only time it is worth a warning.
    pub fn warn_missing_icon(&mut self, path: &str) -> (first: bool)
        ensures
            first == !old(self)@.contains(path@),
            final(self)@ == old(self)@.insert(path@),
    {
        let ghost names = self.seen@.map_values(|s: String| s@);
        let mut i: usize = 0;
        while i < self.seen.len()
            invariant
                i <= self.seen@.len(),
                names == self.seen@.map_values(|s: String| s@),
                forall|k: int| 0 <= k < i ==> names[k] != path@,
            decreases self.seen.len() - i,
        {
            if str_eq(self.seen[i].as_str(), path) {
                assert(names[i as int] == path@);
                assert(self@.contains(path@));
                assert(self@.insert(path@) =~= self@);
                return false;
            }
            i += 1;
        }
        assert(!names.contains(path@));
        self.seen.push(String::from_str(path));
        assert(self.seen@.map_values(|s: String| s@) =~= names.push(path@));
        proof {
            names.lemma_push_to_set_commute(path@);
        }
        true
    }
}

/// A missing icon is warned about once: once a path has been recorded,
/// asking about it again — whatever else was recorded in between — finds it
/// already seen, so `warn_missing_icon` answers `false`.
pub proof fn missing_icons_warn_once(seen: Set<Seq<char>>, path: Seq<char>, between: Seq<Seq<char>>)
    ensures
        seen.insert(path).union(between.to_set()).contains(path),
{
}

} // verus!
