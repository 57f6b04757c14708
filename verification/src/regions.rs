//! The 53 world-conquest regions: their API identifiers, the names the game
//! actually displays, and their position on the hex grid.
//!
//! An explicit table, because the display name is frequently unrelated to the
//! identifier: `MooringCountyHex` is "The Moors", `DeadLandsHex` is "Deadlands",
//! `OarbreakerHex` is "Oarbreaker Isles".
use vstd::prelude::*;
use vstd::string::*;

use crate::text::{
    ascii_lower, chars_of, char_is_uppercase, ends_with, ends_with_chars,
    eq_ignore_ascii_case, eq_ignore_ascii_case_chars, lemma_eq_ignore_ascii_case_symmetric,
    all_white_space, is_white_space, lemma_eq_ignore_ascii_case_transitive, lemma_trim_eq_ignore,
    lemma_trim_end_shape, lemma_trim_start_shape, trim_ignores_white_around, push_str, slice_chars,
    string_from_chars, trim, trim_chars, trim_end, trim_start, unicode_is_uppercase,
};

verus! {

/// One region of the world-conquest map.
#[derive(Clone, Copy)]
pub struct Region {
    /// The `*Hex` identifier the API uses, and the `Map{name}.TGA` asset stem.
    pub api_name: &'static str,
    /// What the game shows players. Frequently unrelated to `api_name`.
    pub display_name: &'static str,
    /// Hex-grid column, left to right. Odd columns sit half a hex lower.
    pub col: u32,
    /// Hex-grid row within the column, top to bottom.
    pub row: u32,
}

/// How many regions the table holds.
pub const REGION_COUNT: usize = 53;

/// All regions, in column-major grid order.
pub open spec fn region_table() -> Seq<Region> {
    seq![
        Region { api_name: "OlavisWakeHex", display_name: "Olavis Wake", col: 0, row: 2 },
        Region { api_name: "PariPeakHex", display_name: "Pari Peak", col: 1, row: 1 },
        Region { api_name: "PalantineBermHex", display_name: "Palantine Berm", col: 1, row: 2 },
        Region { api_name: "OarbreakerHex", display_name: "Oarbreaker Isles", col: 1, row: 3 },
        Region { api_name: "KuuraStrandHex", display_name: "Kuura Strand", col: 2, row: 1 },
        Region { api_name: "GutterHex", display_name: "The Gutter", col: 2, row: 2 },
        Region { api_name: "FishermansRowHex", display_name: "Fishermans Row", col: 2, row: 3 },
        Region { api_name: "StemaLandingHex", display_name: "Stema Landing", col: 2, row: 4 },
        Region { api_name: "NevishLineHex", display_name: "Nevish Line", col: 3, row: 1 },
        Region { api_name: "FarranacCoastHex", display_name: "Farranac Coast", col: 3, row: 2 },
        Region { api_name: "WestgateHex", display_name: "Westgate", col: 3, row: 3 },
        Region { api_name: "OriginHex", display_name: "Origin", col: 3, row: 4 },
        Region { api_name: "CallumsCapeHex", display_name: "Callums Cape", col: 4, row: 1 },
        Region { api_name: "StonecradleHex", display_name: "Stonecradle", col: 4, row: 2 },
        Region { api_name: "KingsCageHex", display_name: "Kings Cage", col: 4, row: 3 },
        Region { api_name: "SableportHex", display_name: "Sableport", col: 4, row: 4 },
        Region { api_name: "AshFieldsHex", display_name: "Ash Fields", col: 4, row: 5 },
        Region { api_name: "SpeakingWoodsHex", display_name: "Speaking Woods", col: 5, row: 0 },
        Region { api_name: "MooringCountyHex", display_name: "The Moors", col: 5, row: 1 },
        Region { api_name: "LinnMercyHex", display_name: "The Linn of Mercy", col: 5, row: 2 },
        Region { api_name: "LochMorHex", display_name: "Loch Mór", col: 5, row: 3 },
        Region { api_name: "HeartlandsHex", display_name: "The Heartlands", col: 5, row: 4 },
        Region { api_name: "RedRiverHex", display_name: "Red River", col: 5, row: 5 },
        Region { api_name: "BasinSionnachHex", display_name: "Basin Sionnach", col: 6, row: 0 },
        Region { api_name: "ReachingTrailHex", display_name: "Reaching Trail", col: 6, row: 1 },
        Region { api_name: "CallahansPassageHex", display_name: "Callahans Passage", col: 6, row: 2 },
        Region { api_name: "DeadLandsHex", display_name: "Deadlands", col: 6, row: 3 },
        Region { api_name: "UmbralWildwoodHex", display_name: "Umbral Wildwood", col: 6, row: 4 },
        Region { api_name: "GreatMarchHex", display_name: "Great March", col: 6, row: 5 },
        Region { api_name: "KalokaiHex", display_name: "Kalokai", col: 6, row: 6 },
        Region { api_name: "HowlCountyHex", display_name: "Howl County", col: 7, row: 0 },
        Region { api_name: "ViperPitHex", display_name: "Viper Pit", col: 7, row: 1 },
        Region { api_name: "MarbanHollowHex", display_name: "Marban Hollow", col: 7, row: 2 },
        Region { api_name: "DrownedValeHex", display_name: "The Drowned Vale", col: 7, row: 3 },
        Region { api_name: "ShackledChasmHex", display_name: "Shackled Chasm", col: 7, row: 4 },
        Region { api_name: "AcrithiaHex", display_name: "Acrithia", col: 7, row: 5 },
        Region { api_name: "ClansheadValleyHex", display_name: "Clanshead Valley", col: 8, row: 1 },
        Region { api_name: "WeatheredExpanseHex", display_name: "Weathered Expanse", col: 8, row: 2 },
        Region { api_name: "ClahstraHex", display_name: "The Clahstra", col: 8, row: 3 },
        Region { api_name: "AllodsBightHex", display_name: "Allods Bight", col: 8, row: 4 },
        Region { api_name: "TerminusHex", display_name: "Terminus", col: 8, row: 5 },
        Region { api_name: "MorgensCrossingHex", display_name: "Morgens Crossing", col: 9, row: 1 },
        Region { api_name: "StlicanShelfHex", display_name: "Stlican Shelf", col: 9, row: 2 },
        Region { api_name: "EndlessShoreHex", display_name: "Endless Shore", col: 9, row: 3 },
        Region { api_name: "ReaversPassHex", display_name: "Reavers Pass", col: 9, row: 4 },
        Region { api_name: "GodcroftsHex", display_name: "Godcrofts", col: 10, row: 2 },
        Region { api_name: "TempestIslandHex", display_name: "Tempest Island", col: 10, row: 3 },
        Region { api_name: "WrestaHex", display_name: "Wresta", col: 10, row: 4 },
        Region { api_name: "OnyxHex", display_name: "Onyx", col: 10, row: 5 },
        Region { api_name: "LykosIsleHex", display_name: "Lykos Isle", col: 11, row: 2 },
        Region { api_name: "TheFingersHex", display_name: "The Fingers", col: 11, row: 3 },
        Region { api_name: "TyrantFoothillsHex", display_name: "Tyrant Foothills", col: 11, row: 4 },
        Region { api_name: "PipersEnclaveHex", display_name: "Pipers Enclave", col: 12, row: 4 },
    ]
}

/// All regions, in column-major grid order.
pub fn regions() -> (table: Vec<Region>)
    ensures
        table@ == region_table(),
        table@.len() == REGION_COUNT,
{
    let table = vec![
        Region { api_name: "OlavisWakeHex", display_name: "Olavis Wake", col: 0, row: 2 },
        Region { api_name: "PariPeakHex", display_name: "Pari Peak", col: 1, row: 1 },
        Region { api_name: "PalantineBermHex", display_name: "Palantine Berm", col: 1, row: 2 },
        Region { api_name: "OarbreakerHex", display_name: "Oarbreaker Isles", col: 1, row: 3 },
        Region { api_name: "KuuraStrandHex", display_name: "Kuura Strand", col: 2, row: 1 },
        Region { api_name: "GutterHex", display_name: "The Gutter", col: 2, row: 2 },
        Region { api_name: "FishermansRowHex", display_name: "Fishermans Row", col: 2, row: 3 },
        Region { api_name: "StemaLandingHex", display_name: "Stema Landing", col: 2, row: 4 },
        Region { api_name: "NevishLineHex", display_name: "Nevish Line", col: 3, row: 1 },
        Region { api_name: "FarranacCoastHex", display_name: "Farranac Coast", col: 3, row: 2 },
        Region { api_name: "WestgateHex", display_name: "Westgate", col: 3, row: 3 },
        Region { api_name: "OriginHex", display_name: "Origin", col: 3, row: 4 },
        Region { api_name: "CallumsCapeHex", display_name: "Callums Cape", col: 4, row: 1 },
        Region { api_name: "StonecradleHex", display_name: "Stonecradle", col: 4, row: 2 },
        Region { api_name: "KingsCageHex", display_name: "Kings Cage", col: 4, row: 3 },
        Region { api_name: "SableportHex", display_name: "Sableport", col: 4, row: 4 },
        Region { api_name: "AshFieldsHex", display_name: "Ash Fields", col: 4, row: 5 },
        Region { api_name: "SpeakingWoodsHex", display_name: "Speaking Woods", col: 5, row: 0 },
        Region { api_name: "MooringCountyHex", display_name: "The Moors", col: 5, row: 1 },
        Region { api_name: "LinnMercyHex", display_name: "The Linn of Mercy", col: 5, row: 2 },
        Region { api_name: "LochMorHex", display_name: "Loch Mór", col: 5, row: 3 },
        Region { api_name: "HeartlandsHex", display_name: "The Heartlands", col: 5, row: 4 },
        Region { api_name: "RedRiverHex", display_name: "Red River", col: 5, row: 5 },
        Region { api_name: "BasinSionnachHex", display_name: "Basin Sionnach", col: 6, row: 0 },
        Region { api_name: "ReachingTrailHex", display_name: "Reaching Trail", col: 6, row: 1 },
        Region { api_name: "CallahansPassageHex", display_name: "Callahans Passage", col: 6, row: 2 },
        Region { api_name: "DeadLandsHex", display_name: "Deadlands", col: 6, row: 3 },
        Region { api_name: "UmbralWildwoodHex", display_name: "Umbral Wildwood", col: 6, row: 4 },
        Region { api_name: "GreatMarchHex", display_name: "Great March", col: 6, row: 5 },
        Region { api_name: "KalokaiHex", display_name: "Kalokai", col: 6, row: 6 },
        Region { api_name: "HowlCountyHex", display_name: "Howl County", col: 7, row: 0 },
        Region { api_name: "ViperPitHex", display_name: "Viper Pit", col: 7, row: 1 },
        Region { api_name: "MarbanHollowHex", display_name: "Marban Hollow", col: 7, row: 2 },
        Region { api_name: "DrownedValeHex", display_name: "The Drowned Vale", col: 7, row: 3 },
        Region { api_name: "ShackledChasmHex", display_name: "Shackled Chasm", col: 7, row: 4 },
        Region { api_name: "AcrithiaHex", display_name: "Acrithia", col: 7, row: 5 },
        Region { api_name: "ClansheadValleyHex", display_name: "Clanshead Valley", col: 8, row: 1 },
        Region { api_name: "WeatheredExpanseHex", display_name: "Weathered Expanse", col: 8, row: 2 },
        Region { api_name: "ClahstraHex", display_name: "The Clahstra", col: 8, row: 3 },
        Region { api_name: "AllodsBightHex", display_name: "Allods Bight", col: 8, row: 4 },
        Region { api_name: "TerminusHex", display_name: "Terminus", col: 8, row: 5 },
        Region { api_name: "MorgensCrossingHex", display_name: "Morgens Crossing", col: 9, row: 1 },
        Region { api_name: "StlicanShelfHex", display_name: "Stlican Shelf", col: 9, row: 2 },
        Region { api_name: "EndlessShoreHex", display_name: "Endless Shore", col: 9, row: 3 },
        Region { api_name: "ReaversPassHex", display_name: "Reavers Pass", col: 9, row: 4 },
        Region { api_name: "GodcroftsHex", display_name: "Godcrofts", col: 10, row: 2 },
        Region { api_name: "TempestIslandHex", display_name: "Tempest Island", col: 10, row: 3 },
        Region { api_name: "WrestaHex", display_name: "Wresta", col: 10, row: 4 },
        Region { api_name: "OnyxHex", display_name: "Onyx", col: 10, row: 5 },
        Region { api_name: "LykosIsleHex", display_name: "Lykos Isle", col: 11, row: 2 },
        Region { api_name: "TheFingersHex", display_name: "The Fingers", col: 11, row: 3 },
        Region { api_name: "TyrantFoothillsHex", display_name: "Tyrant Foothills", col: 11, row: 4 },
        Region { api_name: "PipersEnclaveHex", display_name: "Pipers Enclave", col: 12, row: 4 },
    ];
    assert(table@ =~= region_table());
    table
}

/// The letters `hex`.
pub open spec fn hex_suffix() -> Seq<char> {
    seq!['h', 'e', 'x']
}

/// An identifier with surrounding whitespace removed and a trailing `Hex`, in
/// any case, cut off.
pub open spec fn strip_hex(name: Seq<char>) -> Seq<char> {
    let t = trim(name);
    if t.len() >= 3 && eq_ignore_ascii_case(t.skip(t.len() - 3), hex_suffix()) {
        t.take(t.len() - 3)
    } else {
        t
    }
}

/// Two identifiers name the same region: case-insensitively equal once each
/// has lost its optional `Hex` suffix and surrounding whitespace.
pub open spec fn same_region_spec(a: Seq<char>, b: Seq<char>) -> bool {
    eq_ignore_ascii_case(strip_hex(a), strip_hex(b))
}

/// The first region of `table` at or after `i` that `name` identifies.
pub open spec fn find_from(table: Seq<Region>, name: Seq<char>, i: int) -> Option<Region>
    decreases table.len() - i,
{
    if i < 0 || i >= table.len() {
        None
    } else if same_region_spec(table[i].api_name@, name) {
        Some(table[i])
    } else {
        find_from(table, name, i + 1)
    }
}

/// The region an identifier names, if any.
pub open spec fn find_spec(name: Seq<char>) -> Option<Region> {
    find_from(region_table(), name, 0)
}

/// Which entry of the table a stem is, told apart by its length and its first
/// and third letters: no two regions share all three.
pub open spec fn stem_index(len: int, first: char, third: char) -> int {
    if len == 10 && first == 'o' && third == 'a' {
        0
    } else if len == 8 && first == 'p' && third == 'r' {
        1
    } else if len == 13 && first == 'p' && third == 'l' {
        2
    } else if len == 10 && first == 'o' && third == 'r' {
        3
    } else if len == 11 && first == 'k' && third == 'u' {
        4
    } else if len == 6 && first == 'g' && third == 't' {
        5
    } else if len == 13 && first == 'f' && third == 's' {
        6
    } else if len == 12 && first == 's' && third == 'e' {
        7
    } else if len == 10 && first == 'n' && third == 'v' {
        8
    } else if len == 13 && first == 'f' && third == 'r' {
        9
    } else if len == 8 && first == 'w' && third == 's' {
        10
    } else if len == 6 && first == 'o' && third == 'i' {
        11
    } else if len == 11 && first == 'c' && third == 'l' {
        12
    } else if len == 11 && first == 's' && third == 'o' {
        13
    } else if len == 9 && first == 'k' && third == 'n' {
        14
    } else if len == 9 && first == 's' && third == 'b' {
        15
    } else if len == 9 && first == 'a' && third == 'h' {
        16
    } else if len == 13 && first == 's' && third == 'e' {
        17
    } else if len == 13 && first == 'm' && third == 'o' {
        18
    } else if len == 9 && first == 'l' && third == 'n' {
        19
    } else if len == 7 && first == 'l' && third == 'c' {
        20
    } else if len == 10 && first == 'h' && third == 'a' {
        21
    } else if len == 8 && first == 'r' && third == 'd' {
        22
    } else if len == 13 && first == 'b' && third == 's' {
        23
    } else if len == 13 && first == 'r' && third == 'a' {
        24
    } else if len == 16 && first == 'c' && third == 'l' {
        25
    } else if len == 9 && first == 'd' && third == 'a' {
        26
    } else if len == 14 && first == 'u' && third == 'b' {
        27
    } else if len == 10 && first == 'g' && third == 'e' {
        28
    } else if len == 7 && first == 'k' && third == 'l' {
        29
    } else if len == 10 && first == 'h' && third == 'w' {
        30
    } else if len == 8 && first == 'v' && third == 'p' {
        31
    } else if len == 12 && first == 'm' && third == 'r' {
        32
    } else if len == 11 && first == 'd' && third == 'o' {
        33
    } else if len == 13 && first == 's' && third == 'a' {
        34
    } else if len == 8 && first == 'a' && third == 'r' {
        35
    } else if len == 15 && first == 'c' && third == 'a' {
        36
    } else if len == 16 && first == 'w' && third == 'a' {
        37
    } else if len == 8 && first == 'c' && third == 'a' {
        38
    } else if len == 11 && first == 'a' && third == 'l' {
        39
    } else if len == 8 && first == 't' && third == 'r' {
        40
    } else if len == 15 && first == 'm' && third == 'r' {
        41
    } else if len == 12 && first == 's' && third == 'l' {
        42
    } else if len == 12 && first == 'e' && third == 'd' {
        43
    } else if len == 11 && first == 'r' && third == 'a' {
        44
    } else if len == 9 && first == 'g' && third == 'd' {
        45
    } else if len == 13 && first == 't' && third == 'm' {
        46
    } else if len == 6 && first == 'w' && third == 'e' {
        47
    } else if len == 4 && first == 'o' && third == 'y' {
        48
    } else if len == 9 && first == 'l' && third == 'k' {
        49
    } else if len == 10 && first == 't' && third == 'e' {
        50
    } else if len == 15 && first == 't' && third == 'r' {
        51
    } else if len == 13 && first == 'p' && third == 'p' {
        52
    } else {
        -1
    }
}

/// The table entry a stem belongs to, by [`stem_index`].
pub open spec fn stem_key(stem: Seq<char>) -> int {
    stem_index(stem.len() as int, ascii_lower(stem[0]), ascii_lower(stem[2]))
}

/// An identifier that starts with a letter and ends in `Hex` loses exactly
/// the suffix.
proof fn lemma_stem_shape(s: Seq<char>)
    requires
        s.len() >= 4,
        !is_white_space(s[0]),
        s[s.len() - 3] == 'H',
        s[s.len() - 2] == 'e',
        s[s.len() - 1] == 'x',
    ensures
        strip_hex(s) == s.take(s.len() - 3),
{
    assert(trim_start(s) == s);
    assert(trim_end(s) == s);
    let tail = s.skip(s.len() - 3);
    assert(ascii_lower('H') == 'h');
    assert(ascii_lower('e') == 'e');
    assert(ascii_lower('x') == 'x');
    assert forall|k: int| 0 <= k < tail.len() implies ascii_lower(#[trigger] tail[k]) == ascii_lower(
        hex_suffix()[k],
    ) by {
        if k == 0 {
        } else if k == 1 {
        } else {
        }
    }
}

/// Each table entry's stem is at least three letters long, and its key is
/// its own position.
proof fn lemma_table_stem(i: int)
    requires
        0 <= i < region_table().len(),
    ensures
        strip_hex(region_table()[i].api_name@).len() >= 3,
        stem_key(strip_hex(region_table()[i].api_name@)) == i,
{
    let name = region_table()[i].api_name@;
    if i == 0 {
        reveal_strlit("OlavisWakeHex");
        lemma_stem_shape(name);
    } else if i == 1 {
        reveal_strlit("PariPeakHex");
        lemma_stem_shape(name);
    } else if i == 2 {
        reveal_strlit("PalantineBermHex");
        lemma_stem_shape(name);
    } else if i == 3 {
        reveal_strlit("OarbreakerHex");
        lemma_stem_shape(name);
    } else if i == 4 {
        reveal_strlit("KuuraStrandHex");
        lemma_stem_shape(name);
    } else if i == 5 {
        reveal_strlit("GutterHex");
        lemma_stem_shape(name);
    } else if i == 6 {
        reveal_strlit("FishermansRowHex");
        lemma_stem_shape(name);
    } else if i == 7 {
        reveal_strlit("StemaLandingHex");
        lemma_stem_shape(name);
    } else if i == 8 {
        reveal_strlit("NevishLineHex");
        lemma_stem_shape(name);
    } else if i == 9 {
        reveal_strlit("FarranacCoastHex");
        lemma_stem_shape(name);
    } else if i == 10 {
        reveal_strlit("WestgateHex");
        lemma_stem_shape(name);
    } else if i == 11 {
        reveal_strlit("OriginHex");
        lemma_stem_shape(name);
    } else if i == 12 {
        reveal_strlit("CallumsCapeHex");
        lemma_stem_shape(name);
    } else if i == 13 {
        reveal_strlit("StonecradleHex");
        lemma_stem_shape(name);
    } else if i == 14 {
        reveal_strlit("KingsCageHex");
        lemma_stem_shape(name);
    } else if i == 15 {
        reveal_strlit("SableportHex");
        lemma_stem_shape(name);
    } else if i == 16 {
        reveal_strlit("AshFieldsHex");
        lemma_stem_shape(name);
    } else if i == 17 {
        reveal_strlit("SpeakingWoodsHex");
        lemma_stem_shape(name);
    } else if i == 18 {
        reveal_strlit("MooringCountyHex");
        lemma_stem_shape(name);
    } else if i == 19 {
        reveal_strlit("LinnMercyHex");
        lemma_stem_shape(name);
    } else if i == 20 {
        reveal_strlit("LochMorHex");
        lemma_stem_shape(name);
    } else if i == 21 {
        reveal_strlit("HeartlandsHex");
        lemma_stem_shape(name);
    } else if i == 22 {
        reveal_strlit("RedRiverHex");
        lemma_stem_shape(name);
    } else if i == 23 {
        reveal_strlit("BasinSionnachHex");
        lemma_stem_shape(name);
    } else if i == 24 {
        reveal_strlit("ReachingTrailHex");
        lemma_stem_shape(name);
    } else if i == 25 {
        reveal_strlit("CallahansPassageHex");
        lemma_stem_shape(name);
    } else if i == 26 {
        reveal_strlit("DeadLandsHex");
        lemma_stem_shape(name);
    } else if i == 27 {
        reveal_strlit("UmbralWildwoodHex");
        lemma_stem_shape(name);
    } else if i == 28 {
        reveal_strlit("GreatMarchHex");
        lemma_stem_shape(name);
    } else if i == 29 {
        reveal_strlit("KalokaiHex");
        lemma_stem_shape(name);
    } else if i == 30 {
        reveal_strlit("HowlCountyHex");
        lemma_stem_shape(name);
    } else if i == 31 {
        reveal_strlit("ViperPitHex");
        lemma_stem_shape(name);
    } else if i == 32 {
        reveal_strlit("MarbanHollowHex");
        lemma_stem_shape(name);
    } else if i == 33 {
        reveal_strlit("DrownedValeHex");
        lemma_stem_shape(name);
    } else if i == 34 {
        reveal_strlit("ShackledChasmHex");
        lemma_stem_shape(name);
    } else if i == 35 {
        reveal_strlit("AcrithiaHex");
        lemma_stem_shape(name);
    } else if i == 36 {
        reveal_strlit("ClansheadValleyHex");
        lemma_stem_shape(name);
    } else if i == 37 {
        reveal_strlit("WeatheredExpanseHex");
        lemma_stem_shape(name);
    } else if i == 38 {
        reveal_strlit("ClahstraHex");
        lemma_stem_shape(name);
    } else if i == 39 {
        reveal_strlit("AllodsBightHex");
        lemma_stem_shape(name);
    } else if i == 40 {
        reveal_strlit("TerminusHex");
        lemma_stem_shape(name);
    } else if i == 41 {
        reveal_strlit("MorgensCrossingHex");
        lemma_stem_shape(name);
    } else if i == 42 {
        reveal_strlit("StlicanShelfHex");
        lemma_stem_shape(name);
    } else if i == 43 {
        reveal_strlit("EndlessShoreHex");
        lemma_stem_shape(name);
    } else if i == 44 {
        reveal_strlit("ReaversPassHex");
        lemma_stem_shape(name);
    } else if i == 45 {
        reveal_strlit("GodcroftsHex");
        lemma_stem_shape(name);
    } else if i == 46 {
        reveal_strlit("TempestIslandHex");
        lemma_stem_shape(name);
    } else if i == 47 {
        reveal_strlit("WrestaHex");
        lemma_stem_shape(name);
    } else if i == 48 {
        reveal_strlit("OnyxHex");
        lemma_stem_shape(name);
    } else if i == 49 {
        reveal_strlit("LykosIsleHex");
        lemma_stem_shape(name);
    } else if i == 50 {
        reveal_strlit("TheFingersHex");
        lemma_stem_shape(name);
    } else if i == 51 {
        reveal_strlit("TyrantFoothillsHex");
        lemma_stem_shape(name);
    } else if i == 52 {
        reveal_strlit("PipersEnclaveHex");
        lemma_stem_shape(name);
    } else {
    }
}

/// Case-insensitively equal stems have the same key.
proof fn lemma_same_stem_same_key(a: Seq<char>, b: Seq<char>)
    requires
        eq_ignore_ascii_case(a, b),
        a.len() >= 3,
    ensures
        stem_key(a) == stem_key(b),
{
    assert(ascii_lower(a[0]) == ascii_lower(b[0]));
    assert(ascii_lower(a[2]) == ascii_lower(b[2]));
}

/// No two regions of the table collide under [`same_region`]'s lenient
/// rule: case-insensitive, with the `Hex` suffix optional.
pub proof fn no_two_regions_collide(i: int, j: int)
    requires
        0 <= i < region_table().len(),
        0 <= j < region_table().len(),
        i != j,
    ensures
        !same_region_spec(region_table()[i].api_name@, region_table()[j].api_name@),
{
    lemma_table_stem(i);
    lemma_table_stem(j);
    let a = strip_hex(region_table()[i].api_name@);
    let b = strip_hex(region_table()[j].api_name@);
    if eq_ignore_ascii_case(a, b) {
        lemma_same_stem_same_key(a, b);
    }
}

proof fn lemma_found_from(name: Seq<char>, k: int, i: int)
    requires
        0 <= k <= i < region_table().len(),
        same_region_spec(region_table()[i].api_name@, name),
        forall|j: int| k <= j < i ==> !same_region_spec(#[trigger] region_table()[j].api_name@, name),
    ensures
        find_from(region_table(), name, k) == Some(region_table()[i]),
    decreases i - k,
{
    if k < i {
        lemma_found_from(name, k + 1, i);
    }
}

/// Every region of the table is found by its own identifier.
pub proof fn every_region_is_found_by_its_name(i: int)
    requires
        0 <= i < region_table().len(),
    ensures
        find_spec(region_table()[i].api_name@) == Some(region_table()[i]),
{
    let name = region_table()[i].api_name@;
    assert(same_region_spec(name, name));
    assert forall|j: int| 0 <= j < i implies !same_region_spec(
        #[trigger] region_table()[j].api_name@,
        name,
    ) by {
        no_two_regions_collide(j, i);
    }
    lemma_found_from(name, 0, i);
}

fn strip_hex_chars(name: &str) -> (t: Vec<char>)
    ensures
        t@ == strip_hex(name@),
{
    let chars = chars_of(name);
    let trimmed = trim_chars(&chars);
    let n = trimmed.len();
    if n >= 3 && ascii_lower_is(trimmed[n - 3], 'h') && ascii_lower_is(trimmed[n - 2], 'e')
        && ascii_lower_is(trimmed[n - 1], 'x') {
        let t = slice_chars(&trimmed, 0, n - 3);
        proof {
            let tail = trimmed@.skip(n - 3);
            assert(tail[0] == trimmed@[n - 3]);
            assert(tail[1] == trimmed@[n - 2]);
            assert(tail[2] == trimmed@[n - 1]);
            assert(eq_ignore_ascii_case(tail, hex_suffix()));
            assert(t@ =~= trimmed@.take(n - 3));
        }
        t
    } else {
        proof {
            if n >= 3 && eq_ignore_ascii_case(trimmed@.skip(n - 3), hex_suffix()) {
                let tail = trimmed@.skip(n - 3);
                assert(ascii_lower(tail[0]) == ascii_lower(hex_suffix()[0]));
                assert(ascii_lower(tail[1]) == ascii_lower(hex_suffix()[1]));
                assert(ascii_lower(tail[2]) == ascii_lower(hex_suffix()[2]));
            }
        }
        trimmed
    }
}

/// Is `c`, folded to ASCII lowercase, the lowercase letter `lower`?
fn ascii_lower_is(c: char, lower: char) -> (r: bool)
    requires
        'a' <= lower <= 'z',
    ensures
        r == (ascii_lower(c) == lower),
{
    crate::text::ascii_lower_char(c) == lower
}

/// Do two identifiers name the same region?
///
/// Deliberately lenient, because the API's own spelling is not stable: it
/// serves Marban Hollow as `MarbanHollow` while the assets and this table say
/// `MarbanHollowHex`, and `DeadLandsHex` has been seen written `DeadlandsHex`.
/// So: case-insensitive, and the `Hex` suffix is optional.
pub fn same_region(a: &str, b: &str) -> (r: bool)
    ensures
        r == same_region_spec(a@, b@),
{
    let sa = strip_hex_chars(a);
    let sb = strip_hex_chars(b);
    eq_ignore_ascii_case_chars(&sa, &sb)
}

/// Looks a region up by its API identifier.
pub fn find(api_name: &str) -> (found: Option<Region>)
    ensures
        found == find_spec(api_name@),
{
    let table = regions();
    let n = table.len();
    let mut i: usize = 0;
    while i < n
        invariant
            table@ == region_table(),
            n == table@.len(),
            i <= n,
            find_from(region_table(), api_name@, 0) == find_from(
                region_table(),
                api_name@,
                i as int,
            ),
        decreases n - i,
    {
        let region = table[i];
        if same_region(region.api_name, api_name) {
            return Some(region);
        }
        i += 1;
    }
    None
}

/// The name this region's assets are filed under, for an identifier that may
/// be spelled however the API felt like spelling it.
pub fn asset_name(api_name: &str) -> (name: &str)
    ensures
        name@ == match find_spec(api_name@) {
            Some(region) => region.api_name@,
            None => api_name@,
        },
{
    match find(api_name) {
        Some(region) => region.api_name,
        None => api_name,
    }
}

/// `s` with a space put in front of every uppercase letter but the first
/// character, so `MarbanHollow` reads `Marban Hollow`.
pub open spec fn split_camel_case_spec(s: Seq<char>) -> Seq<char>
    decreases s.len(),
{
    if s.len() == 0 {
        s
    } else if s.len() > 1 && unicode_is_uppercase(s.last()) {
        split_camel_case_spec(s.drop_last()) + seq![' ', s.last()]
    } else {
        split_camel_case_spec(s.drop_last()).push(s.last())
    }
}

fn split_camel_case(s: &Vec<char>) -> (out: Vec<char>)
    ensures
        out@ == split_camel_case_spec(s@),
{
    let mut out: Vec<char> = Vec::new();
    let n = s.len();
    let mut i: usize = 0;
    while i < n
        invariant
            n == s@.len(),
            i <= n,
            out@ == split_camel_case_spec(s@.take(i as int)),
        decreases n - i,
    {
        let ch = s[i];
        let ghost before = s@.take(i as int);
        let ghost after = s@.take(i + 1);
        assert(after.drop_last() =~= before);
        assert(after.last() == ch);
        if i > 0 && char_is_uppercase(ch) {
            out.push(' ');
        }
        out.push(ch);
        i += 1;
        assert(out@ =~= split_camel_case_spec(after));
    }
    assert(s@.take(n as int) =~= s@);
    out
}

/// The letters `Hex`, exactly.
pub open spec fn hex_word() -> Seq<char> {
    seq!['H', 'e', 'x']
}

/// What to show for an identifier the table doesn't know: its `Hex` suffix
/// (exactly that spelling) dropped, and the words split apart.
pub open spec fn fallback_display_name(api_name: Seq<char>) -> Seq<char> {
    if ends_with(api_name, hex_word()) {
        split_camel_case_spec(api_name.take(api_name.len() - 3))
    } else {
        split_camel_case_spec(api_name)
    }
}

/// The table's name for a region, or the fallback for one it doesn't know.
pub open spec fn display_name_spec(api_name: Seq<char>) -> Seq<char> {
    match find_spec(api_name) {
        Some(region) => region.display_name@,
        None => fallback_display_name(api_name),
    }
}

/// The display name for an API region identifier.
///
/// Unknown identifiers — a region Siege Camp ships before the table is
/// updated — fall back to de-camel-casing, which is wrong-ish but readable,
/// and never hides the region from users.
pub fn display_name(api_name: &str) -> (name: String)
    ensures
        name@ == display_name_spec(api_name@),
{
    if let Some(region) = find(api_name) {
        return String::from_str(region.display_name);
    }
    let chars = chars_of(api_name);
    let hex = vec!['H', 'e', 'x'];
    assert(hex@ =~= hex_word());
    let stem = if ends_with_chars(&chars, &hex) {
        slice_chars(&chars, 0, chars.len() - 3)
    } else {
        chars
    };
    assert(ends_with(api_name@, hex_word()) ==> stem@ =~= api_name@.take(api_name@.len() - 3));
    let out = split_camel_case(&stem);
    string_from_chars(&out)
}

/// Names for the same region is an equivalence: reflexive, symmetric and
/// transitive, so matching an API spelling against the table cannot depend
/// on which side of the comparison a name is on.
pub proof fn same_region_is_an_equivalence(a: Seq<char>, b: Seq<char>, c: Seq<char>)
    ensures
        same_region_spec(a, a),
        same_region_spec(a, b) ==> same_region_spec(b, a),
        same_region_spec(a, b) && same_region_spec(b, c) ==> same_region_spec(a, c),
{
    if same_region_spec(a, b) {
        lemma_eq_ignore_ascii_case_symmetric(strip_hex(a), strip_hex(b));
    }
    if same_region_spec(a, b) && same_region_spec(b, c) {
        lemma_eq_ignore_ascii_case_transitive(strip_hex(a), strip_hex(b), strip_hex(c));
    }
}

/// Whether a name already ends in `Hex`, in any case.
pub open spec fn has_hex_suffix(name: Seq<char>) -> bool {
    name.len() >= 3 && eq_ignore_ascii_case(name.skip(name.len() - 3), hex_suffix())
}

proof fn lemma_strip_hex_eq_ignore(a: Seq<char>, b: Seq<char>)
    requires
        eq_ignore_ascii_case(trim(a), trim(b)),
    ensures
        eq_ignore_ascii_case(strip_hex(a), strip_hex(b)),
{
    let ta = trim(a);
    let tb = trim(b);
    let n = ta.len();
    if n >= 3 {
        let sa = ta.skip(n - 3);
        let sb = tb.skip(n - 3);
        assert forall|i: int| 0 <= i < sa.len() implies ascii_lower(#[trigger] sa[i]) == ascii_lower(
            sb[i],
        ) by {
            assert(sa[i] == ta[n - 3 + i]);
            assert(sb[i] == tb[n - 3 + i]);
        }
        if eq_ignore_ascii_case(sa, hex_suffix()) {
            lemma_eq_ignore_ascii_case_symmetric(sa, sb);
            lemma_eq_ignore_ascii_case_transitive(sb, sa, hex_suffix());
        }
        if eq_ignore_ascii_case(sb, hex_suffix()) {
            lemma_eq_ignore_ascii_case_transitive(sa, sb, hex_suffix());
        }
        assert forall|i: int| 0 <= i < ta.take(n - 3).len() implies ascii_lower(
            #[trigger] ta.take(n - 3)[i],
        ) == ascii_lower(tb.take(n - 3)[i]) by {
            assert(ta.take(n - 3)[i] == ta[i]);
            assert(tb.take(n - 3)[i] == tb[i]);
        }
    }
}

/// Spellings of one region name the same region: the name in another ASCII
/// case, the name with whitespace around it, and a trimmed name without the
/// suffix with `Hex` added.
pub proof fn spellings_name_the_same_region(
    a: Seq<char>,
    b: Seq<char>,
    lead: Seq<char>,
    tail: Seq<char>,
)
    requires
        all_white_space(lead),
        all_white_space(tail),
    ensures
        eq_ignore_ascii_case(a, b) ==> same_region_spec(a, b),
        same_region_spec(a, lead + a + tail),
        a == trim(a) && !has_hex_suffix(a) ==> same_region_spec(a, a + "Hex"@),
{
    if eq_ignore_ascii_case(a, b) {
        lemma_trim_eq_ignore(a, b);
        lemma_strip_hex_eq_ignore(a, b);
    }
    trim_ignores_white_around(lead, a, tail);
    assert(strip_hex(lead + a + tail) == strip_hex(a));
    if a == trim(a) && !has_hex_suffix(a) {
        reveal_strlit("Hex");
        let h = a + "Hex"@;
        lemma_trim_start_shape(a);
        lemma_trim_end_shape(trim_start(a));
        if a.len() > 0 {
            assert(trim_start(a)[0] == a[0]);
            assert(!is_white_space(a[0]));
        }
        assert(h[0] == (if a.len() > 0 { a[0] } else { 'H' }));
        assert(trim_start(h) == h);
        assert(h.last() == 'x');
        assert(trim_end(h) == h);
        let tail3 = h.skip(h.len() - 3);
        assert(tail3 =~= "Hex"@);
        assert(ascii_lower('H') == 'h');
        assert(eq_ignore_ascii_case(tail3, hex_suffix()));
        assert(h.take(h.len() - 3) =~= a);
        assert(strip_hex(h) == a);
        assert(strip_hex(a) == a);
    }
}

} // verus!
