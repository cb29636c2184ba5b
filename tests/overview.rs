use matchbot_api::overview::{detailed_maps, map_name, team_name, MapRecord, SeriesMap, TeamSummary};

fn teams() -> (TeamSummary, TeamSummary) {
    (
        TeamSummary { id: 1, name: "Alpha".to_string() },
        TeamSummary { id: 2, name: "Bravo".to_string() },
    )
}

fn pool() -> Vec<MapRecord> {
    vec![
        MapRecord { id: 10, name: "de_nuke".to_string() },
        MapRecord { id: 11, name: "de_mirage".to_string() },
    ]
}

#[test]
fn names_teams_and_maps() {
    let (one, two) = teams();
    assert_eq!(team_name(1, &one, &two), "Alpha");
    assert_eq!(team_name(2, &one, &two), "Bravo");
    assert_eq!(map_name(&pool(), 11), Some("de_mirage".to_string()));
    assert_eq!(map_name(&pool(), 12), None);
}

#[test]
fn describes_series_maps() {
    let (one, two) = teams();
    let series = vec![
        SeriesMap { map: 11, picked_by: 2, start_ct_team: 1, start_t_team: 2, completed_at: Some(5) },
        SeriesMap { map: 10, picked_by: 1, start_ct_team: 2, start_t_team: 1, completed_at: None },
    ];
    let maps = detailed_maps(&series, &pool(), &one, &two).unwrap();
    assert_eq!(maps.len(), 2);
    assert_eq!(maps[0].map, "de_mirage");
    assert_eq!(maps[0].picked_by, "Bravo");
    assert_eq!(maps[0].start_ct_team, "Alpha");
    assert_eq!(maps[0].start_t_team, "Bravo");
    assert!(maps[0].completed);
    assert_eq!(maps[1].map, "de_nuke");
    assert_eq!(maps[1].picked_by, "Alpha");
    assert!(!maps[1].completed);
}

#[test]
fn unknown_map_in_series() {
    let (one, two) = teams();
    let series = vec![SeriesMap { map: 99, picked_by: 1, start_ct_team: 1, start_t_team: 2, completed_at: None }];
    assert!(detailed_maps(&series, &pool(), &one, &two).is_none());
}
