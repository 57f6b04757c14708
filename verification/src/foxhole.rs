//! What the Foxhole War API reports, as far as the bot's rules read it: a
//! region's war report, which team holds a structure, and which faction
//! controls a region by what it holds there.
use vstd::prelude::*;

verus! {

/// The per-region war report.
#[derive(Debug, Clone, PartialEq, Eq)]
pub struct WarReport {
    pub total_enlistments: i64,
    pub colonial_casualties: i64,
    pub warden_casualties: i64,
    pub day_of_war: i64,
    pub version: i64,
}

/// The shard's war as a whole, as far as the bot reads it.
#[derive(Debug, Clone)]
pub struct War {
    pub war_id: String,
    pub war_number: i64,
    pub winner: String,
    /// API milliseconds.
    pub conquest_start_time: i64,
    pub required_victory_towns: i64,
}

/// Which side a map item belongs to.
#[derive(Debug, Clone, Copy, PartialEq, Eq, Structural)]
pub enum TeamId {
    Colonials,
    Neutral,
    Wardens,
}

/// How prominent a map label is.
#[derive(Debug, Clone, Copy, PartialEq, Eq, Structural)]
pub enum MapMarkerType {
    Major,
    Minor,
}

/// The part of a dynamic map item that control is decided by: who owns it
/// and what kind of structure it is (the API's `iconType`). Where it stands
/// plays no part.
#[derive(Debug, Clone, Copy, PartialEq, Eq, Structural)]
pub struct Structure {
    pub team_id: TeamId,
    pub icon_type: i64,
}

/// The `iconType`s that decide who holds a region: town bases (56 to 58) and
/// relic bases (45 to 47). Everything else a faction builds says where they
/// have *been*, not what they hold.
pub open spec fn is_control_icon(icon_type: i64) -> bool {
    icon_type == 45 || icon_type == 46 || icon_type == 47 || icon_type == 56 || icon_type == 57
        || icon_type == 58
}

pub fn is_control_icon_type(icon_type: i64) -> (control: bool)
    ensures
        control == is_control_icon(icon_type),
{
    let control_icon_types: [i64; 6] = [45, 46, 47, 56, 57, 58];
    let mut k: usize = 0;
    while k < 6
        invariant
            k <= 6,
            control_icon_types@ == seq![45i64, 46, 47, 56, 57, 58],
            forall|j: int| 0 <= j < k ==> control_icon_types@[j] != icon_type,
        decreases 6 - k,
    {
        if control_icon_types[k] == icon_type {
            return true;
        }
        k += 1;
    }
    false
}

/// How many of `items` belong to `team` and are (or are not) control
/// structures.
pub open spec fn holdings(items: Seq<Structure>, team: TeamId, bases: bool) -> nat
    decreases items.len(),
{
    if items.len() == 0 {
        0
    } else {
        let item = items.last();
        holdings(items.drop_last(), team, bases) + if item.team_id == team && is_control_icon(
            item.icon_type,
        ) == bases {
            1nat
        } else {
            0nat
        }
    }
}

/// Which faction holds a region: more bases, and on a tie in bases more of
/// everything else; nobody when the two are equal on both counts.
pub open spec fn controlling_team_spec(items: Seq<Structure>) -> Option<TeamId> {
    let cb = holdings(items, TeamId::Colonials, true);
    let wb = holdings(items, TeamId::Wardens, true);
    let cs = holdings(items, TeamId::Colonials, false);
    let ws = holdings(items, TeamId::Wardens, false);
    if cb > wb || (cb == wb && cs > ws) {
        Some(TeamId::Colonials)
    } else if cb < wb || (cb == wb && cs < ws) {
        Some(TeamId::Wardens)
    } else {
        None
    }
}

/// Which faction holds a region, by majority of its control structures.
///
/// An even split of bases is common — a hex with one base each is the normal
/// shape of a contested front — so a tie on bases falls through to every
/// other structure the two sides hold there, which is the same question asked
/// with finer resolution. `None` only when the two are equal on both counts.
pub fn controlling_team(items: &[Structure]) -> (team: Option<TeamId>)
    ensures
        team == controlling_team_spec(items@),
{
    let mut colonial_bases: usize = 0;
    let mut colonial_structures: usize = 0;
    let mut warden_bases: usize = 0;
    let mut warden_structures: usize = 0;
    let n = items.len();
    let mut i: usize = 0;
    while i < n
        invariant
            i <= n == items@.len(),
            colonial_bases == holdings(items@.take(i as int), TeamId::Colonials, true),
            colonial_structures == holdings(items@.take(i as int), TeamId::Colonials, false),
            warden_bases == holdings(items@.take(i as int), TeamId::Wardens, true),
            warden_structures == holdings(items@.take(i as int), TeamId::Wardens, false),
            colonial_bases + colonial_structures + warden_bases + warden_structures <= i,
        decreases n - i,
    {
        let item = items[i];
        proof {
            let next = items@.take(i + 1);
            assert(next.drop_last() =~= items@.take(i as int));
            assert(next.last() == item);
        }
        let control = is_control_icon_type(item.icon_type);
        match item.team_id {
            TeamId::Colonials => {
                if control {
                    colonial_bases += 1;
                } else {
                    colonial_structures += 1;
                }
            },
            TeamId::Wardens => {
                if control {
                    warden_bases += 1;
                } else {
                    warden_structures += 1;
                }
            },
            TeamId::Neutral => {},
        }
        i += 1;
    }
    assert(items@.take(n as int) =~= items@);
    if colonial_bases > warden_bases || (colonial_bases == warden_bases && colonial_structures
        > warden_structures) {
        Some(TeamId::Colonials)
    } else if colonial_bases < warden_bases || (colonial_bases == warden_bases
        && colonial_structures < warden_structures) {
        Some(TeamId::Wardens)
    } else {
        None
    }
}

/// The same structures with the two factions' flags exchanged.
pub open spec fn swap_sides(items: Seq<Structure>) -> Seq<Structure> {
    Seq::new(
        items.len(),
        |i: int|
            Structure {
                team_id: match items[i].team_id {
                    TeamId::Colonials => TeamId::Wardens,
                    TeamId::Wardens => TeamId::Colonials,
                    TeamId::Neutral => TeamId::Neutral,
                },
                icon_type: items[i].icon_type,
            },
    )
}

proof fn lemma_swap_holdings(items: Seq<Structure>, bases: bool)
    ensures
        holdings(swap_sides(items), TeamId::Colonials, bases) == holdings(
            items,
            TeamId::Wardens,
            bases,
        ),
        holdings(swap_sides(items), TeamId::Wardens, bases) == holdings(
            items,
            TeamId::Colonials,
            bases,
        ),
    decreases items.len(),
{
    if items.len() > 0 {
        assert(swap_sides(items).drop_last() =~= swap_sides(items.drop_last()));
        lemma_swap_holdings(items.drop_last(), bases);
    }
}

/// Control is decided the same way for both sides: exchange every
/// structure's flag and the region changes hands, and a region nobody
/// controls still has nobody.
pub proof fn control_does_not_favour_a_side(items: Seq<Structure>)
    ensures
        controlling_team_spec(swap_sides(items)) == match controlling_team_spec(items) {
            Some(TeamId::Colonials) => Some(TeamId::Wardens),
            Some(TeamId::Wardens) => Some(TeamId::Colonials),
            other => other,
        },
{
    lemma_swap_holdings(items, true);
    lemma_swap_holdings(items, false);
}

/// Only control structures and, on a tie, other structures decide a region;
/// a neutral structure never tips it.
pub proof fn neutral_structures_decide_nothing(items: Seq<Structure>, icon_type: i64)
    ensures
        controlling_team_spec(items.push(Structure { team_id: TeamId::Neutral, icon_type }))
            == controlling_team_spec(items),
{
    let more = items.push(Structure { team_id: TeamId::Neutral, icon_type });
    assert(more.drop_last() =~= items);
}

/// A town base (56 to 58) or a relic base (45 to 47), by its `iconType`.
pub open spec fn base_icon(icon_type: i64) -> bool {
    45 <= icon_type <= 47 || 56 <= icon_type <= 58
}

/// How many of `items` `team` holds that are bases (or, for `false`, that are
/// anything else).
pub open spec fn held_count(items: Seq<Structure>, team: TeamId, bases: bool) -> nat {
    items.filter(|s: Structure| s.team_id == team && base_icon(s.icon_type) == bases).len()
}

proof fn lemma_holdings_count(items: Seq<Structure>, team: TeamId, bases: bool)
    ensures
        holdings(items, team, bases) == held_count(items, team, bases),
    decreases items.len(),
{
    reveal_with_fuel(Seq::filter, 1);
    if items.len() > 0 {
        lemma_holdings_count(items.drop_last(), team, bases);
    }
}

/// Who holds a region is decided by bases first: the side with more bases
/// holds it, whatever else the other side has built there. Only when the
/// bases are even do the other structures decide, and when those are even
/// too, nobody holds it.
pub proof fn more_bases_hold_the_region(items: Seq<Structure>)
    ensures
        held_count(items, TeamId::Colonials, true) > held_count(items, TeamId::Wardens, true)
            ==> controlling_team_spec(items) == Some(TeamId::Colonials),
        held_count(items, TeamId::Wardens, true) > held_count(items, TeamId::Colonials, true)
            ==> controlling_team_spec(items) == Some(TeamId::Wardens),
        held_count(items, TeamId::Colonials, true) == held_count(items, TeamId::Wardens, true)
            ==> controlling_team_spec(items) == if held_count(items, TeamId::Colonials, false)
            > held_count(items, TeamId::Wardens, false) {
            Some(TeamId::Colonials)
        } else if held_count(items, TeamId::Wardens, false) > held_count(
            items,
            TeamId::Colonials,
            false,
        ) {
            Some(TeamId::Wardens)
        } else {
            None
        },
{
    assert forall|t: i64| #[trigger] is_control_icon(t) == base_icon(t) by {}
    lemma_holdings_count(items, TeamId::Colonials, true);
    lemma_holdings_count(items, TeamId::Wardens, true);
    lemma_holdings_count(items, TeamId::Colonials, false);
    lemma_holdings_count(items, TeamId::Wardens, false);
}

} // verus!
