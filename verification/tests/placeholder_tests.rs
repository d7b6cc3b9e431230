use prediction_core::probability::ProbabilityTriple;

#[test]
fn matches_test_placeholder() {
    // Tests will be added once database is set up
    assert!(true);
}

#[test]
fn predictions_test_placeholder() {
    assert!(true);
}

#[test]
fn teams_test_placeholder() {
    assert!(true);
}

#[test]
fn test_model_prediction_format() {
    // A real classifier run needs a model artifact; until one is
    // available, this checks the shape the adapter must deliver.
    let probs = ProbabilityTriple { p_home: 500, p_draw: 300, p_away: 200 };
    let total = probs.p_home + probs.p_draw + probs.p_away;
    assert!(total >= 990 && total <= 1010);
}
