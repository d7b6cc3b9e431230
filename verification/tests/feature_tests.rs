use prediction_core::features::{
    calculate_form_points, calculate_match_features, feature_names, normalize_features,
    FeatureVector, FEATURE_COUNT,
};
use prediction_core::outcome::FormOutcome;
use prediction_core::team::TeamSnapshot;

fn snapshot_without_averages(matches_played: u32, goals_for: u32, goals_against: u32) -> TeamSnapshot {
    TeamSnapshot {
        matches_played,
        wins: 0,
        draws: 0,
        losses: 0,
        goals_for,
        goals_against,
        points: 0,
        avg_xg_milli: None,
        avg_xg_against_milli: None,
        avg_possession_milli: None,
        avg_shots_milli: None,
        avg_shots_on_target_milli: None,
    }
}

#[test]
fn test_form_calculation() {
    let form = vec![
        FormOutcome::Win,
        FormOutcome::Win,
        FormOutcome::Draw,
        FormOutcome::Loss,
        FormOutcome::Win,
    ];
    let points = calculate_form_points(&form);
    assert_eq!(points, 10); // 3+3+1+0+3 = 10
}

#[test]
fn test_empty_form_is_zero_points() {
    let form: Vec<FormOutcome> = vec![];
    assert_eq!(calculate_form_points(&form), 0);
}

#[test]
fn test_feature_count() {
    let home_team = TeamSnapshot {
        matches_played: 10,
        wins: 7,
        draws: 2,
        losses: 1,
        goals_for: 25,
        goals_against: 10,
        points: 23,
        avg_xg_milli: Some(2100),
        avg_xg_against_milli: Some(1000),
        avg_possession_milli: Some(58000),
        avg_shots_milli: Some(15000),
        avg_shots_on_target_milli: Some(6000),
    };
    let away_team = TeamSnapshot {
        matches_played: 10,
        wins: 5,
        draws: 3,
        losses: 2,
        goals_for: 18,
        goals_against: 12,
        points: 18,
        avg_xg_milli: Some(1700),
        avg_xg_against_milli: Some(1200),
        avg_possession_milli: Some(52000),
        avg_shots_milli: Some(12000),
        avg_shots_on_target_milli: Some(5000),
    };
    let home_form = vec![FormOutcome::Win; 5];
    let away_form = vec![FormOutcome::Draw; 5];

    let features = calculate_match_features(&home_team, &away_team, &home_form, &away_form);
    assert_eq!(features.values.len(), 16); // must match the model's input width
}

#[test]
fn test_feature_values_are_pinned() {
    let home_team = TeamSnapshot {
        matches_played: 10,
        wins: 7,
        draws: 2,
        losses: 1,
        goals_for: 25,
        goals_against: 10,
        points: 23,
        avg_xg_milli: Some(2100),
        avg_xg_against_milli: Some(1000),
        avg_possession_milli: Some(58000),
        avg_shots_milli: Some(15000),
        avg_shots_on_target_milli: Some(6000),
    };
    let away_team = TeamSnapshot {
        matches_played: 10,
        wins: 5,
        draws: 3,
        losses: 2,
        goals_for: 18,
        goals_against: 12,
        points: 18,
        avg_xg_milli: Some(1700),
        avg_xg_against_milli: Some(1200),
        avg_possession_milli: Some(52000),
        avg_shots_milli: Some(12000),
        avg_shots_on_target_milli: Some(5000),
    };
    let home_form = vec![FormOutcome::Win; 5];
    let away_form = vec![FormOutcome::Draw; 5];

    let features = calculate_match_features(&home_team, &away_team, &home_form, &away_form);
    assert_eq!(
        features.values,
        vec![
            2100,  // home xG
            1700,  // away xG
            400,   // xG differential
            58000, // home possession
            52000, // away possession
            6000,  // possession differential
            6000,  // home shots on target
            5000,  // away shots on target
            2500,  // home goals for per match
            1800,  // away goals for per match
            1000,  // home goals against per match
            1200,  // away goals against per match
            15000, // home form points (5 wins)
            5000,  // away form points (5 draws)
            10000, // form differential
            500,   // head-to-head placeholder
        ]
    );
}

#[test]
fn test_length_is_sixteen_without_optional_fields() {
    let home_team = snapshot_without_averages(3, 4, 2);
    let away_team = snapshot_without_averages(3, 1, 5);
    let features = calculate_match_features(&home_team, &away_team, &vec![], &vec![]);
    assert_eq!(features.values.len(), FEATURE_COUNT);
    // the documented defaults fill in for the absent averages
    assert_eq!(features.values[0], 1000);
    assert_eq!(features.values[3], 50000);
    assert_eq!(features.values[6], 4000);
}

#[test]
fn test_zero_matches_played_yields_zero_goal_rates() {
    let home_team = snapshot_without_averages(0, 0, 0);
    let away_team = snapshot_without_averages(2, 3, 1);
    let features = calculate_match_features(&home_team, &away_team, &vec![], &vec![]);
    assert_eq!(features.values[8], 0); // home goals for per match
    assert_eq!(features.values[10], 0); // home goals against per match
    assert_eq!(features.values[9], 1500); // away rates are unaffected
    assert_eq!(features.values[11], 500);
}

#[test]
fn test_normalize_features_scales_down_by_hundred() {
    let features = FeatureVector { values: vec![2100, -450, 0, 99, 100, -100] };
    let normalized = normalize_features(&features);
    assert_eq!(normalized.values, vec![21, -4, 0, 0, 1, -1]);
}

#[test]
fn test_feature_names_match_vector_order() {
    let names = feature_names();
    assert_eq!(names.len(), 16);
    assert_eq!(names[0], "home_avg_xg");
    assert_eq!(names[2], "xg_differential");
    assert_eq!(names[12], "home_form_points");
    assert_eq!(names[15], "head_to_head_ratio");
}
