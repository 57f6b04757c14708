use foxholewarbot::db::{FullMapRequest, GuildData, RequestStatus, Shard};
use foxholewarbot::foxhole::{controlling_team, is_control_icon_type, Structure, TeamId};
use foxholewarbot::regions::{asset_name, display_name, find, regions, same_region, REGION_COUNT};

#[test]
fn the_table_holds_every_region_once() {
    let table = regions();
    assert_eq!(table.len(), REGION_COUNT);
    for region in &table {
        let found = find(region.api_name).expect("every table entry is found by its own name");
        assert_eq!(found.api_name, region.api_name);
    }
}

#[test]
fn no_two_regions_collide_under_the_lenient_rule() {
    let table = regions();
    for (i, a) in table.iter().enumerate() {
        for (j, b) in table.iter().enumerate() {
            assert_eq!(same_region(a.api_name, b.api_name), i == j, "{} vs {}", a.api_name, b.api_name);
        }
    }
}

#[test]
fn region_names_match_leniently() {
    assert!(same_region("MarbanHollow", "MarbanHollowHex"));
    assert!(same_region("deadlandshex", "DeadLandsHex"));
    assert!(same_region(" DeadLands ", "DeadLandsHex"));
    assert!(!same_region("DeadLandsHex", "ReachingTrailHex"));
}

#[test]
fn assets_are_named_the_way_the_table_spells_them() {
    assert_eq!(asset_name("MarbanHollow"), "MarbanHollowHex");
    assert_eq!(asset_name("NowhereHex"), "NowhereHex");
}

#[test]
fn display_names_come_from_the_table_or_fall_back() {
    assert_eq!(display_name("DeadLandsHex"), "Deadlands");
    assert_eq!(display_name("NewPlaceHex"), "New Place");
    assert_eq!(display_name("Somewhere"), "Somewhere");
}

#[test]
fn shard_names_read_back() {
    for shard in Shard::list_all() {
        assert_eq!(Shard::from_str(shard.as_str()), shard);
    }
    assert_eq!(Shard::Able.as_str(), "Able");
    assert_eq!(Shard::from_str("charlie"), Shard::Charlie);
}

#[test]
fn an_unknown_shard_name_is_able() {
    assert_eq!(Shard::from_str("Zulu"), Shard::Able);
}

fn guild(shard_name: &str) -> GuildData {
    GuildData {
        id: 1,
        guild_id: 10,
        shard: Shard::from_str(shard_name).api_url().to_string(),
        shard_name: shard_name.to_string(),
        show_command_output: true,
        full_map_faction_tint: false,
        frontline: false,
        timezone: "UTC".to_string(),
        full_map_approved: false,
    }
}

#[test]
fn a_guild_knows_its_shard() {
    assert_eq!(guild("Baker").shard(), Shard::Baker);
}

fn request(status: &str) -> FullMapRequest {
    FullMapRequest {
        id: 7,
        guild: 1,
        guild_id: 10,
        requested_by: 42,
        member_count: Some(40),
        cadence: "every 6 hours".to_string(),
        channel_id: 99,
        use_case: Some("ops".to_string()),
        audience: None,
        contact: None,
        status: status.to_string(),
        reviewed_by: None,
        message_id: None,
        created_at: 1_700_000_000,
    }
}

#[test]
fn request_status_reads_as_stored() {
    assert!(request("pending").is_pending());
    assert!(!request("pending").is_approved());
    assert!(request("approved").is_approved());
    assert!(!request("denied").is_pending());
    assert_eq!(RequestStatus::Withdrawn.as_str(), "withdrawn");
}

fn held(team_id: TeamId, icon_type: i64) -> Structure {
    Structure { team_id, icon_type }
}

#[test]
fn whoever_holds_more_control_structures_controls_the_region() {
    let items = [held(TeamId::Wardens, 56), held(TeamId::Wardens, 45), held(TeamId::Colonials, 57)];
    assert_eq!(controlling_team(&items), Some(TeamId::Wardens));
}

#[test]
fn a_tie_or_an_empty_region_belongs_to_nobody() {
    assert_eq!(controlling_team(&[held(TeamId::Wardens, 56), held(TeamId::Colonials, 56)]), None);
    assert_eq!(controlling_team(&[]), None);
}

#[test]
fn a_tie_on_bases_falls_through_to_other_structures() {
    assert!(is_control_icon_type(45));
    assert!(!is_control_icon_type(12));
    let items = [held(TeamId::Wardens, 56), held(TeamId::Colonials, 56), held(TeamId::Colonials, 12)];
    assert_eq!(controlling_team(&items), Some(TeamId::Colonials));
}

#[test]
fn neutral_structures_change_nothing() {
    let items = [held(TeamId::Colonials, 56), held(TeamId::Neutral, 56), held(TeamId::Neutral, 45)];
    assert_eq!(controlling_team(&items), Some(TeamId::Colonials));
}

#[test]
fn other_spellings_name_the_same_region() {
    for region in regions() {
        let bare = &region.api_name[..region.api_name.len() - 3];
        assert!(same_region(bare, &bare.to_ascii_uppercase()));
        assert!(same_region(bare, &format!(" {bare} ")));
        assert!(same_region(bare, &format!("{bare}Hex")));
        assert!(same_region(region.api_name, &format!("\t{}  ", region.api_name.to_ascii_lowercase())));
    }
}

#[test]
fn shard_names_read_back_in_any_case_and_padding() {
    for shard in Shard::list_all() {
        let written = format!("  {}  ", shard.as_str().to_uppercase());
        assert_eq!(Shard::from_str(&written), shard);
    }
}
