//! What the pickers offer as the user types: regions, timezones, schedule
//! targets and schedule names. Discord rejects a response with more than 25
//! choices, so every list is cut there.
use vstd::prelude::*;
use vstd::string::*;

use crate::regions::{display_name, display_name_spec};
use crate::schedule::{tz_variant, tz_variant_count, tz_variant_name};
use crate::text::{
    chars_of, contains_chars, contains_seq, lowercase, replace_char, replace_char_chars,
    str_eq, string_from_chars, to_lowercase, trim, trim_chars,
};

verus! {

/// Discord's cap on the choices in one autocomplete response.
pub const MAX_CHOICES: usize = 25;

/// One entry in a picker: what is shown, and what is submitted.
pub struct Choice {
    pub name: String,
    pub value: String,
}

pub open spec fn choice_views(choices: Seq<Choice>) -> Seq<(Seq<char>, Seq<char>)> {
    choices.map_values(|c: Choice| (c.name@, c.value@))
}

/// At most the first 25.
pub open spec fn capped<T>(s: Seq<T>) -> Seq<T> {
    if s.len() <= 25 {
        s
    } else {
        s.take(25)
    }
}

proof fn lemma_capped_push<T>(s: Seq<T>, x: T)
    ensures
        capped(s.push(x)) == if s.len() < 25 {
            s.push(x)
        } else {
            capped(s)
        },
{
    if s.len() >= 25 {
        assert(s.push(x).take(25) =~= s.take(25));
    }
}

/// What has been typed, as the lists compare it: trimmed and lowercased.
pub open spec fn filter_text(partial: Seq<char>) -> Seq<char> {
    lowercase(trim(partial))
}

fn filter_of(partial: &str) -> (filter: Vec<char>)
    ensures
        filter@ == filter_text(partial@),
{
    let trimmed = string_from_chars(&trim_chars(&chars_of(partial)));
    let lowered = to_lowercase(trimmed.as_str());
    chars_of(lowered.as_str())
}

/// Does `text`, lowercased, contain `filter`?
fn lower_contains(text: &str, filter: &Vec<char>) -> (r: bool)
    ensures
        r == contains_seq(lowercase(text@), filter@),
{
    let lowered = to_lowercase(text);
    contains_chars(&chars_of(lowered.as_str()), filter)
}

fn choice(name: &str, value: &str) -> (c: Choice)
    ensures
        c.name@ == name@,
        c.value@ == value@,
{
    Choice { name: String::from_str(name), value: String::from_str(value) }
}

fn push_choice(choices: &mut Vec<Choice>, c: Choice)
    ensures
        choice_views(final(choices)@) == choice_views(old(choices)@).push((c.name@, c.value@)),
        final(choices)@.len() == old(choices)@.len() + 1,
{
    let ghost before = choices@;
    choices.push(c);
    assert(choice_views(choices@) =~= choice_views(before).push((c.name@, c.value@)));
}

// ---------------------------------------------------------------------------
// Regions
// ---------------------------------------------------------------------------

/// The placeholder offered to a server with no settings. Discord rejects an
/// empty value, so it is `-`, which can only fail when picked.
pub fn setup_first_choices() -> (choices: Vec<Choice>)
    ensures
        choice_views(choices@) == seq![("Run /set-guild-settings first for this to work!"@, "-"@)],
{
    let mut choices: Vec<Choice> = Vec::new();
    push_choice(&mut choices, choice("Run /set-guild-settings first for this to work!", "-"));
    assert(choice_views(choices@) =~= seq![
        ("Run /set-guild-settings first for this to work!"@, "-"@),
    ]);
    choices
}

/// A region matches on its display name or its API name, so "mooring" and
/// "the moors" both find The Moors.
pub open spec fn region_matches(filter: Seq<char>, api_name: Seq<char>) -> bool {
    contains_seq(lowercase(display_name_spec(api_name)), filter) || contains_seq(
        lowercase(api_name),
        filter,
    )
}

pub open spec fn region_entries(filter: Seq<char>, listed: Seq<String>) -> Seq<(Seq<char>, Seq<char>)> {
    listed.map_values(|s: String| s@).filter(|a: Seq<char>| region_matches(filter, a)).map_values(
        |a: Seq<char>| (display_name_spec(a), a),
    )
}

/// The shard's listed regions that match, labelled with their real names.
pub open spec fn region_choices(partial: Seq<char>, listed: Seq<String>) -> Seq<(Seq<char>, Seq<char>)> {
    capped(region_entries(filter_text(partial), listed))
}

proof fn lemma_region_entries_push(filter: Seq<char>, listed: Seq<String>, i: int)
    requires
        0 <= i < listed.len(),
    ensures
        region_entries(filter, listed.take(i + 1)) == if region_matches(filter, listed[i]@) {
            region_entries(filter, listed.take(i)).push(
                (display_name_spec(listed[i]@), listed[i]@),
            )
        } else {
            region_entries(filter, listed.take(i))
        },
{
    let names = listed.take(i).map_values(|s: String| s@);
    let name = listed[i]@;
    assert(listed.take(i + 1).map_values(|s: String| s@) =~= names.push(name));
    names.lemma_filter_push(name, |a: Seq<char>| region_matches(filter, a));
    let kept = names.filter(|a: Seq<char>| region_matches(filter, a));
    if region_matches(filter, name) {
        assert(kept.push(name).map_values(|a: Seq<char>| (display_name_spec(a), a)) =~= kept.map_values(
            |a: Seq<char>| (display_name_spec(a), a),
        ).push((display_name_spec(name), name)));
    }
}

/// Autocomplete over the shard's region list (the API's own names).
pub fn region_picker(partial: &str, listed: &Vec<String>) -> (choices: Vec<Choice>)
    ensures
        choice_views(choices@) == region_choices(partial@, listed@),
{
    let filter = filter_of(partial);
    let mut choices: Vec<Choice> = Vec::new();
    let mut i: usize = 0;
    assert(region_entries(filter@, listed@.take(0)) =~= Seq::<(Seq<char>, Seq<char>)>::empty());
    while i < listed.len()
        invariant
            i <= listed@.len(),
            filter@ == filter_text(partial@),
            choice_views(choices@) == capped(region_entries(filter@, listed@.take(i as int))),
        decreases listed.len() - i,
    {
        proof {
            lemma_region_entries_push(filter@, listed@, i as int);
        }
        let api_name = listed[i].as_str();
        let label = display_name(api_name);
        let matches = lower_contains(label.as_str(), &filter) || lower_contains(api_name, &filter);
        if matches {
            let ghost entries = region_entries(filter@, listed@.take(i as int));
            proof {
                lemma_capped_push(entries, (display_name_spec(api_name@), api_name@));
            }
            if choices.len() < MAX_CHOICES {
                push_choice(&mut choices, Choice { name: label, value: listed[i].clone() });
            }
        }
        i += 1;
    }
    assert(listed@.take(listed@.len() as int) =~= listed@);
    choices
}

// ---------------------------------------------------------------------------
// The schedule target: regions, plus the whole world map
// ---------------------------------------------------------------------------

/// The label for the world-map entry, in the picker where a region would be.
pub const FULL_MAP_LABEL: &'static str = "The whole world map (needs approval to schedule)";

/// Is the world-map entry offered for what has been typed?
pub open spec fn offers_full_map(filter: Seq<char>) -> bool {
    filter.len() == 0 || contains_seq(lowercase(FULL_MAP_LABEL@), filter) || contains_seq(
        "full-map"@,
        filter,
    )
}

/// The region list, with the world-map entry first when it matches — first
/// so it's visible without scrolling, and cut back to the limit since the
/// region list may already be full. Only `/schedule-report` offers it:
/// `/get-map` and `/war-report` take a single region by definition.
pub open spec fn target_choices(partial: Seq<char>, listed: Seq<String>) -> Seq<(Seq<char>, Seq<char>)> {
    let regions = region_choices(partial, listed);
    if offers_full_map(filter_text(partial)) {
        capped(seq![(FULL_MAP_LABEL@, "full-map"@)] + regions)
    } else {
        regions
    }
}

pub fn target_picker(partial: &str, listed: &Vec<String>) -> (choices: Vec<Choice>)
    ensures
        choice_views(choices@) == target_choices(partial@, listed@),
{
    let regions = region_picker(partial, listed);
    let filter = filter_of(partial);
    let offered = filter.len() == 0 || lower_contains(FULL_MAP_LABEL, &filter) || contains_chars(
        &chars_of("full-map"),
        &filter,
    );
    if !offered {
        return regions;
    }
    let mut choices: Vec<Choice> = Vec::new();
    push_choice(&mut choices, choice(FULL_MAP_LABEL, "full-map"));
    let ghost first = choice_views(choices@);
    let mut i: usize = 0;
    while i < regions.len() && choices.len() < MAX_CHOICES
        invariant
            i <= regions@.len(),
            choices@.len() == i + 1,
            choices@.len() <= 25,
            first.len() == 1,
            choice_views(choices@) == first + choice_views(regions@).take(i as int),
        decreases regions.len() - i,
    {
        let c = Choice { name: regions[i].name.clone(), value: regions[i].value.clone() };
        push_choice(&mut choices, c);
        i += 1;
        assert(choice_views(choices@) =~= first + choice_views(regions@).take(i as int));
    }
    proof {
        let whole = first + choice_views(regions@);
        if whole.len() <= 25 {
            assert(i == regions@.len());
            assert(choice_views(regions@).take(i as int) =~= choice_views(regions@));
        } else {
            assert(i < regions@.len());
            assert(i == 24);
            assert(choice_views(choices@) =~= whole.take(25));
        }
    }
    choices
}

// ---------------------------------------------------------------------------
// Timezones
// ---------------------------------------------------------------------------

/// `n` is how many zones chrono-tz lists: there is a zone at every index
/// below it and none from it on.
pub open spec fn counts_zones(n: int) -> bool {
    n >= 0 && forall|i: int| #[trigger] tz_variant(i) is Some <==> 0 <= i < n
}

/// How many zones chrono-tz lists.
pub open spec fn tz_count() -> int {
    choose|n: int| #[trigger] counts_zones(n)
}

/// Every zone name chrono-tz lists, in its order.
pub open spec fn tz_names() -> Seq<Seq<char>> {
    Seq::new(
        tz_count() as nat,
        |k: int|
            match tz_variant(k) {
                Some(name) => name,
                None => Seq::empty(),
            },
    )
}

/// Offered before anything is typed: somewhere to start for a server that
/// has never set a timezone, since the full list opens on `Africa/Abidjan`.
pub open spec fn common_zones() -> Seq<Seq<char>> {
    seq![
        "UTC"@,
        "Europe/London"@,
        "Europe/Berlin"@,
        "Europe/Bratislava"@,
        "Europe/Moscow"@,
        "America/New_York"@,
        "America/Chicago"@,
        "America/Denver"@,
        "America/Los_Angeles"@,
        "Australia/Sydney"@,
    ]
}

pub fn common_timezones() -> (zones: [&'static str; 10])
    ensures
        zones@.map_values(|z: &str| z@) == common_zones(),
{
    let zones = [
        "UTC",
        "Europe/London",
        "Europe/Berlin",
        "Europe/Bratislava",
        "Europe/Moscow",
        "America/New_York",
        "America/Chicago",
        "America/Denver",
        "America/Los_Angeles",
        "Australia/Sydney",
    ];
    assert(zones@.map_values(|z: &str| z@) =~= common_zones());
    zones
}

/// The server's own setting first — for most guilds the right answer is the
/// one they already chose — then the common zones it isn't.
pub open spec fn suggested_zones(server: Option<Seq<char>>) -> Seq<Seq<char>> {
    let first = match server {
        Some(zone) => seq![zone],
        None => Seq::empty(),
    };
    first + common_zones().filter(|c: Seq<char>| server != Some(c))
}

/// Underscores are how the zone names spell a space, and nobody types them:
/// "new york" and "new_york" both find `America/New_York`.
pub open spec fn zone_matches(filter: Seq<char>, name: Seq<char>) -> bool {
    contains_seq(replace_char(lowercase(name), '_', ' '), replace_char(filter, '_', ' '))
}

pub open spec fn pairs(names: Seq<Seq<char>>) -> Seq<(Seq<char>, Seq<char>)> {
    names.map_values(|n: Seq<char>| (n, n))
}

/// Autocomplete over the IANA zone names, which is the only way a timezone
/// is meant to arrive: every name offered parses by construction.
pub open spec fn zone_choices(partial: Seq<char>, server: Option<Seq<char>>) -> Seq<
    (Seq<char>, Seq<char>),
> {
    let filter = filter_text(partial);
    if filter.len() == 0 {
        capped(pairs(suggested_zones(server)))
    } else {
        capped(pairs(tz_names().filter(|n: Seq<char>| zone_matches(filter, n))))
    }
}

fn suggested_picker(server: Option<&str>) -> (choices: Vec<Choice>)
    ensures
        choice_views(choices@) == capped(
            pairs(
                suggested_zones(
                    match server {
                        Some(z) => Some(z@),
                        None => None,
                    },
                ),
            ),
        ),
{
    let zones = common_timezones();
    let ghost common = zones@.map_values(|z: &str| z@);
    let ghost server_view = match server {
        Some(z) => Some(z@),
        None => None,
    };
    let mut choices: Vec<Choice> = Vec::new();
    let ghost start: Seq<Seq<char>> = match server {
        Some(z) => seq![z@],
        None => Seq::empty(),
    };
    match server {
        Some(z) => {
            push_choice(&mut choices, choice(z, z));
        },
        None => {},
    }
    assert(choice_views(choices@) =~= pairs(start));
    let mut i: usize = 0;
    while i < 10
        invariant
            i <= 10,
            zones@.map_values(|z: &str| z@) == common_zones(),
            common == common_zones(),
            server_view == match server {
                Some(z) => Some(z@),
                None => None,
            },
            start == match server {
                Some(z) => seq![z@],
                None => Seq::<Seq<char>>::empty(),
            },
            choice_views(choices@) == pairs(
                start + common.take(i as int).filter(
                    |c: Seq<char>| server_view != Some(c),
                ),
            ),
        decreases 10 - i,
    {
        let zone = zones[i];
        let ghost kept = common.take(i as int).filter(|c: Seq<char>| server_view != Some(c));
        assert(common.take(i + 1) =~= common.take(i as int).push(zone@));
        proof {
            common.take(i as int).lemma_filter_push(zone@, |c: Seq<char>| server_view != Some(c));
        }
        let skip = match server {
            Some(z) => str_eq(z, zone),
            None => false,
        };
        if !skip {
            push_choice(&mut choices, choice(zone, zone));
            assert(pairs(start + kept.push(zone@)) =~= pairs(start + kept).push((zone@, zone@)));
        }
        i += 1;
    }
    proof {
        assert(common.take(10) =~= common);
        let full = start + common.filter(|c: Seq<char>| server_view != Some(c));
        assert(full =~= suggested_zones(server_view));
        common.lemma_filter_len(|c: Seq<char>| server_view != Some(c));
        assert(pairs(full).len() <= 11);
    }
    choices
}

proof fn lemma_tz_count_is(count: usize)
    requires
        forall|i: int| #[trigger] tz_variant(i) is Some <==> 0 <= i < count,
    ensures
        tz_count() == count,
{
    let n = tz_count();
    assert(counts_zones(count as int));
    assert(counts_zones(n));
    if n < count {
        assert(tz_variant(n) is Some);
    } else if n > count {
        assert(tz_variant(count as int) is Some);
    }
}

/// Autocomplete over the IANA timezone database: the suggestions while
/// nothing is typed, and otherwise every zone whose name matches.
pub fn timezone_picker(partial: &str, server: Option<&str>) -> (choices: Vec<Choice>)
    ensures
        choice_views(choices@) == zone_choices(
            partial@,
            match server {
                Some(z) => Some(z@),
                None => None,
            },
        ),
{
    let filter = filter_of(partial);
    if filter.len() == 0 {
        return suggested_picker(server);
    }
    let spaced = replace_char_chars(&filter, '_', ' ');
    let count = tz_variant_count();
    proof {
        lemma_tz_count_is(count);
    }
    let ghost names = tz_names();
    let ghost pred = |n: Seq<char>| zone_matches(filter@, n);
    let mut choices: Vec<Choice> = Vec::new();
    let mut i: usize = 0;
    assert(names.take(0) =~= Seq::<Seq<char>>::empty());
    while i < count
        invariant
            i <= count,
            count == tz_count(),
            names == tz_names(),
            names.len() == count,
            forall|k: int| #[trigger] tz_variant(k) is Some <==> 0 <= k < count,
            spaced@ == replace_char(filter@, '_', ' '),
            pred == (|n: Seq<char>| zone_matches(filter@, n)),
            choice_views(choices@) == capped(pairs(names.take(i as int).filter(pred))),
        decreases count - i,
    {
        let name = tz_variant_name(i);
        assert(names[i as int] == name@);
        assert(names.take(i + 1) =~= names.take(i as int).push(name@));
        proof {
            names.take(i as int).lemma_filter_push(name@, pred);
        }
        let lowered = to_lowercase(name);
        let folded = replace_char_chars(&chars_of(lowered.as_str()), '_', ' ');
        if contains_chars(&folded, &spaced) {
            let ghost kept = names.take(i as int).filter(pred);
            assert(pairs(kept.push(name@)) =~= pairs(kept).push((name@, name@)));
            proof {
                lemma_capped_push(pairs(kept), (name@, name@));
            }
            if choices.len() < MAX_CHOICES {
                push_choice(&mut choices, choice(name, name));
            }
        }
        i += 1;
    }
    assert(names.take(count as int) =~= names);
    choices
}

// ---------------------------------------------------------------------------
// Schedule names
// ---------------------------------------------------------------------------

/// The server's schedules whose names match, compared lowercased on both
/// sides — "daily" finds a schedule named "Daily".
pub open spec fn schedule_choices(partial: Seq<char>, names: Seq<String>) -> Seq<(Seq<char>, Seq<char>)> {
    if names.len() == 0 {
        seq![("This server has no scheduled reports."@, "-"@)]
    } else {
        capped(
            pairs(
                names.map_values(|s: String| s@).filter(
                    |n: Seq<char>| contains_seq(lowercase(n), filter_text(partial)),
                ),
            ),
        )
    }
}

pub fn schedule_picker(partial: &str, names: &Vec<String>) -> (choices: Vec<Choice>)
    ensures
        choice_views(choices@) == schedule_choices(partial@, names@),
{
    let mut choices: Vec<Choice> = Vec::new();
    if names.len() == 0 {
        push_choice(&mut choices, choice("This server has no scheduled reports.", "-"));
        assert(choice_views(choices@) =~= seq![("This server has no scheduled reports."@, "-"@)]);
        return choices;
    }
    let filter = filter_of(partial);
    let ghost pred = |n: Seq<char>| contains_seq(lowercase(n), filter_text(partial@));
    let ghost all = names@.map_values(|s: String| s@);
    let mut i: usize = 0;
    assert(all.take(0) =~= Seq::<Seq<char>>::empty());
    while i < names.len()
        invariant
            i <= names@.len(),
            all == names@.map_values(|s: String| s@),
            filter@ == filter_text(partial@),
            pred == (|n: Seq<char>| contains_seq(lowercase(n), filter_text(partial@))),
            choice_views(choices@) == capped(pairs(all.take(i as int).filter(pred))),
        decreases names.len() - i,
    {
        let name = names[i].as_str();
        assert(all.take(i + 1) =~= all.take(i as int).push(name@));
        proof {
            all.take(i as int).lemma_filter_push(name@, pred);
        }
        if lower_contains(name, &filter) {
            let ghost kept = all.take(i as int).filter(pred);
            assert(pairs(kept.push(name@)) =~= pairs(kept).push((name@, name@)));
            proof {
                lemma_capped_push(pairs(kept), (name@, name@));
            }
            if choices.len() < MAX_CHOICES {
                push_choice(&mut choices, choice(name, name));
            }
        }
        i += 1;
    }
    assert(all.take(names@.len() as int) =~= all);
    choices
}

} // verus!
