use foxholewarbot::cache::{
    cache_dirs, dynamic_cache_path, maps_cache_path, shard_health, short_reason,
    static_cache_path, war_report_cache_path, ShardHealth,
};
use foxholewarbot::db::Shard;
use foxholewarbot::foxhole::TeamId;
use foxholewarbot::http::{
    api_unavailable, dynamic_url, if_none_match, maps_url, revalidate, revalidate_report,
    static_url, war_report_url, war_url, HttpStatus, Revalidation,
};
use foxholewarbot::map_render::{
    background_path, fits_upload, full_map_last_updated, get_map_reply, icon_path, live_name,
    live_regions, unplaced_regions, IconWarnings, MapError, ATTACHMENT_LIMIT, DEBUG_ICON,
};
use foxholewarbot::regions::find;

fn status(code: u16) -> HttpStatus {
    HttpStatus::new(code).expect("a status http accepts")
}

#[test]
fn statuses_print_as_http_prints_them() {
    assert_eq!(status(503).text(), "503 Service Unavailable");
    assert_eq!(status(304).text(), "304 Not Modified");
    assert_eq!(status(599).text(), "599 <unknown status code>");
    assert!(HttpStatus::new(42).is_none());
    assert!(HttpStatus::new(1000).is_none());
    assert_eq!(HttpStatus::ok().code(), 200);
}

#[test]
fn each_half_is_revalidated_against_its_own_cache() {
    assert!(matches!(revalidate(status(304), true), Revalidation::Cached));
    assert!(matches!(revalidate(status(304), false), Revalidation::Failed(s) if s.code() == 304));
    assert!(matches!(revalidate(status(200), false), Revalidation::Body));
    assert!(matches!(revalidate(status(502), true), Revalidation::Stale(s) if s.code() == 502));
    assert!(matches!(revalidate(status(502), false), Revalidation::Failed(s) if s.code() == 502));
}

#[test]
fn a_war_report_asks_again_when_its_cache_went_missing() {
    assert!(matches!(revalidate_report(status(304), false), Revalidation::Refetch));
    assert!(matches!(revalidate_report(status(304), true), Revalidation::Cached));
}

#[test]
fn two_internal_errors_mean_the_api_is_down() {
    assert!(api_unavailable(status(500), status(500)));
    assert!(!api_unavailable(status(500), status(304)));
}

#[test]
fn the_etag_is_the_cached_version() {
    assert_eq!(if_none_match(Some(42)), "\"42\"");
    assert_eq!(if_none_match(None), "\"0\"");
}

#[test]
fn urls_follow_the_war_api() {
    let api = "https://api.example";
    assert_eq!(
        dynamic_url(api, "DeadLandsHex"),
        "https://api.example/worldconquest/maps/DeadLandsHex/dynamic/public"
    );
    assert_eq!(static_url(api, "DeadLandsHex"), "https://api.example/worldconquest/maps/DeadLandsHex/static");
    assert_eq!(war_report_url(api, "DeadLandsHex"), "https://api.example/worldconquest/warReport/DeadLandsHex");
    assert_eq!(maps_url(api), "https://api.example/worldconquest/maps");
    assert_eq!(war_url(api), "https://api.example/worldconquest/war");
}

#[test]
fn cache_files_are_named_by_region_and_shard() {
    assert_eq!(cache_dirs()[2], "./cache/static");
    assert_eq!(maps_cache_path(Shard::Baker), "./cache/map_choices/maps-Baker.json");
    assert_eq!(dynamic_cache_path("DeadLandsHex", "Able"), "./cache/dynamic/Dynamic_DeadLandsHex-Able.json");
    assert_eq!(static_cache_path("DeadLandsHex", "Able"), "./cache/static/Static_DeadLandsHex-Able.json");
    assert_eq!(war_report_cache_path("X", "Able"), "./cache/war_reports/Report_X-Able.json");
}

#[test]
fn an_empty_region_list_is_not_a_ready_shard() {
    assert!(matches!(shard_health(status(200), Some(40)), ShardHealth::Ready(40)));
    assert!(matches!(shard_health(status(200), Some(0)), ShardHealth::NoRegions));
    assert!(matches!(shard_health(status(200), None), ShardHealth::Unavailable(s) if s.code() == 200));
    assert!(matches!(shard_health(status(503), Some(40)), ShardHealth::Unavailable(s) if s.code() == 503));
}

#[test]
fn each_unhealthy_shard_is_explained() {
    assert_eq!(ShardHealth::Ready(3).explain(Shard::Able), None);
    assert!(ShardHealth::NoRegions
        .explain(Shard::Baker)
        .unwrap()
        .starts_with("Shard **Baker** isn't running a war right now"));
    assert_eq!(
        ShardHealth::Unavailable(status(503)).explain(Shard::Able).unwrap(),
        "The Foxhole API returned `503 Service Unavailable` for shard **Able**. It's likely down for the moment — try another shard, or try again shortly."
    );
    assert_eq!(
        ShardHealth::Unreachable("timed out".to_string()).explain(Shard::Charlie).unwrap(),
        "Couldn't reach shard **Charlie** at all (`timed out`). Either the Foxhole API is unreachable from here, or that shard has gone away."
    );
}

#[test]
fn a_transport_failure_is_named_by_its_kind() {
    assert_eq!(short_reason(true, true, "x".to_string()), "timed out");
    assert_eq!(short_reason(false, true, "x".to_string()), "could not connect");
    assert_eq!(short_reason(false, false, "dns error".to_string()), "dns error");
}

#[test]
fn backgrounds_are_addressed_by_the_table_spelling() {
    assert_eq!(background_path("MarbanHollow"), "./assets/Maps/MapMarbanHollowHex.TGA");
    assert_eq!(background_path("UnknownHex"), "./assets/Maps/MapUnknownHex.TGA");
}

#[test]
fn the_api_spelling_is_what_gets_fetched() {
    let marban = find("MarbanHollowHex").unwrap();
    let live = Some(vec!["DeadLandsHex".to_string(), "MarbanHollow".to_string()]);
    assert_eq!(live_name(&live, &marban).as_deref(), Some("MarbanHollow"));
    let absent = Some(vec!["DeadLandsHex".to_string()]);
    assert_eq!(live_name(&absent, &marban), None);
    assert_eq!(live_name(&None, &marban).as_deref(), Some("MarbanHollowHex"));
}

#[test]
fn a_cold_cache_is_not_an_empty_war() {
    assert_eq!(live_regions(Vec::new()), None);
    assert_eq!(live_regions(vec!["A".to_string()]), Some(vec!["A".to_string()]));
    assert_eq!(
        unplaced_regions(&vec!["DeadLandsHex".to_string(), "BrandNewHex".to_string()]),
        vec!["BrandNewHex".to_string()]
    );
}

#[test]
fn the_world_map_is_as_fresh_as_its_newest_region() {
    assert_eq!(full_map_last_updated(&[None, Some(5), Some(9), None]), Some(9));
    assert_eq!(full_map_last_updated(&[None, None]), None);
    assert_eq!(full_map_last_updated(&[Some(-4)]), Some(0));
    assert!(fits_upload(ATTACHMENT_LIMIT));
    assert!(!fits_upload(ATTACHMENT_LIMIT + 1));
}

#[test]
fn map_errors_read_as_before() {
    assert_eq!(MapError::Status(status(404)).message(), "the Foxhole API returned 404 Not Found");
    assert_eq!(
        MapError::TooLarge(11_000_000).message(),
        "the render came out at 11000000 bytes, over Discord's upload limit"
    );
    assert_eq!(MapError::Request("reset".to_string()).message(), "could not reach the Foxhole API: reset");
}

#[test]
fn get_map_says_what_went_wrong() {
    assert_eq!(
        get_map_reply(&MapError::ApiUnavailable, "Able", "DeadLandsHex"),
        "Shard **Able** isn't responding right now. Try again shortly, or switch shards with `/set-guild-settings`."
    );
    assert_eq!(
        get_map_reply(&MapError::Render("x".to_string()), "Able", "DeadLandsHex"),
        "Couldn't render that region. If `Deadlands` should exist, please report it."
    );
    assert_eq!(
        get_map_reply(&MapError::TaskPanicked, "Able", "DeadLandsHex"),
        "Couldn't fetch that region's data. Try again shortly."
    );
}

#[test]
fn icons_are_named_by_type_and_team() {
    assert_eq!(icon_path(56, TeamId::Wardens), "./assets/MapIcons/56Wardens.png");
    assert_eq!(icon_path(12, TeamId::Neutral), "./assets/MapIcons/12None.png");
    assert_eq!(DEBUG_ICON, "./assets/MapIcons/DebugIcon.png");
}

#[test]
fn a_missing_icon_is_warned_about_once() {
    let mut warnings = IconWarnings::new();
    assert!(warnings.warn_missing_icon("./assets/MapIcons/99Wardens.png"));
    assert!(warnings.warn_missing_icon("./assets/MapIcons/98Wardens.png"));
    assert!(!warnings.warn_missing_icon("./assets/MapIcons/99Wardens.png"));
}
