use prediction_core::errors::PredictionError;
use prediction_core::pipeline::{prediction_from_model_output, MODEL_VERSION};
use prediction_core::store::PredictionStore;

#[test]
fn test_prediction_from_model_output_builds_the_record() {
    // class order: draw, home, away
    let output = vec![200, 700, 100];
    let p = prediction_from_model_output(11, MODEL_VERSION.to_string(), &output).unwrap();
    assert_eq!(p.match_id, 11);
    assert_eq!(p.model_version, "v1.0");
    assert_eq!(p.prob_draw, 200);
    assert_eq!(p.prob_home_win, 700);
    assert_eq!(p.prob_away_win, 100);
    assert_eq!(p.predicted_result, 1);
    assert_eq!(p.confidence, 700);
}

#[test]
fn test_bad_model_output_never_becomes_a_prediction() {
    let too_narrow = vec![500, 500];
    assert_eq!(
        prediction_from_model_output(11, MODEL_VERSION.to_string(), &too_narrow),
        Err(PredictionError::Inference)
    );
    let off_distribution = vec![900, 900, 900];
    assert_eq!(
        prediction_from_model_output(11, MODEL_VERSION.to_string(), &off_distribution),
        Err(PredictionError::Inference)
    );
}

#[test]
fn test_pipeline_writes_through_the_store() {
    let mut store = PredictionStore::new();
    let version = MODEL_VERSION.to_string();
    let output = vec![150, 650, 200];

    let created = store
        .get_or_create(21, &version, || {
            prediction_from_model_output(21, MODEL_VERSION.to_string(), &output)
        })
        .unwrap();
    let retrieved = store
        .get_or_create(21, &version, || {
            panic!("a cached fixture must not be recomputed");
        })
        .unwrap();

    assert_eq!(created, retrieved);
    assert_eq!(retrieved.predicted_result, 1);
    assert_eq!(retrieved.confidence, 650);
}
