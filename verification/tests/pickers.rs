use foxholewarbot::autocomplete::{
    common_timezones, region_picker, schedule_picker, setup_first_choices, target_picker,
    timezone_picker, Choice, FULL_MAP_LABEL, MAX_CHOICES,
};

fn pairs(choices: &[Choice]) -> Vec<(String, String)> {
    choices.iter().map(|c| (c.name.clone(), c.value.clone())).collect()
}

fn listed(names: &[&str]) -> Vec<String> {
    names.iter().map(|n| n.to_string()).collect()
}

#[test]
fn regions_match_on_either_name() {
    let shard = listed(&["MooringCountyHex", "DeadLandsHex", "MarbanHollow"]);
    assert_eq!(
        pairs(&region_picker("the moors", &shard)),
        vec![("The Moors".to_string(), "MooringCountyHex".to_string())]
    );
    assert_eq!(
        pairs(&region_picker(" MOORING ", &shard)),
        vec![("The Moors".to_string(), "MooringCountyHex".to_string())]
    );
    assert_eq!(
        pairs(&region_picker("hollow", &shard)),
        vec![("Marban Hollow".to_string(), "MarbanHollow".to_string())]
    );
    assert_eq!(region_picker("", &shard).len(), 3);
}

#[test]
fn no_settings_means_a_hint_instead_of_regions() {
    assert_eq!(
        pairs(&setup_first_choices()),
        vec![("Run /set-guild-settings first for this to work!".to_string(), "-".to_string())]
    );
}

#[test]
fn pickers_stop_at_discords_limit() {
    let many: Vec<String> = (0..40).map(|n| format!("Region{n}Hex")).collect();
    assert_eq!(region_picker("", &many).len(), MAX_CHOICES);
    let with_world = target_picker("", &many);
    assert_eq!(with_world.len(), MAX_CHOICES);
    assert_eq!(with_world[0].value, "full-map");
    assert_eq!(with_world[1].value, "Region0Hex");
}

#[test]
fn the_world_map_is_offered_first_when_it_matches() {
    let shard = listed(&["DeadLandsHex"]);
    let choices = pairs(&target_picker("world", &shard));
    assert_eq!(choices, vec![(FULL_MAP_LABEL.to_string(), "full-map".to_string())]);
    let choices = pairs(&target_picker("full", &shard));
    assert_eq!(choices[0].1, "full-map");
    let choices = pairs(&target_picker("dead", &shard));
    assert_eq!(choices, vec![("Deadlands".to_string(), "DeadLandsHex".to_string())]);
}

#[test]
fn the_server_zone_comes_first_when_nothing_is_typed() {
    let choices = pairs(&timezone_picker("", Some("Europe/Berlin")));
    assert_eq!(choices.len(), 10);
    assert_eq!(choices[0].0, "Europe/Berlin");
    assert_eq!(choices[1].0, "UTC");
    assert_eq!(choices.iter().filter(|(n, _)| n == "Europe/Berlin").count(), 1);

    let choices = pairs(&timezone_picker("  ", Some("Asia/Tokyo")));
    assert_eq!(choices.len(), 11);
    assert_eq!(choices[0].0, "Asia/Tokyo");

    let names: Vec<String> = pairs(&timezone_picker("", None)).into_iter().map(|(n, _)| n).collect();
    let common: Vec<String> = common_timezones().iter().map(|n| n.to_string()).collect();
    assert_eq!(names, common);
}

#[test]
fn spaces_and_underscores_are_the_same_when_searching_zones() {
    let choices = pairs(&timezone_picker("new york", None));
    assert!(choices.contains(&("America/New_York".to_string(), "America/New_York".to_string())));
    let choices = pairs(&timezone_picker("NEW_YORK", None));
    assert!(choices.iter().any(|(n, _)| n == "America/New_York"));
    assert!(timezone_picker("europe", None).len() <= MAX_CHOICES);
    assert!(timezone_picker("no such zone anywhere", None).is_empty());
}

#[test]
fn schedule_names_match_in_any_case() {
    let names = listed(&["Daily", "Nightly", "Front watch"]);
    assert_eq!(
        pairs(&schedule_picker("daily", &names)),
        vec![("Daily".to_string(), "Daily".to_string())]
    );
    assert_eq!(schedule_picker("", &names).len(), 3);
    assert_eq!(
        pairs(&schedule_picker("x", &Vec::new())),
        vec![("This server has no scheduled reports.".to_string(), "-".to_string())]
    );
}
