use prediction_core::errors::PredictionError;
use prediction_core::outcome::MatchResult;
use prediction_core::probability::{decide, probabilities_from_model_output, ProbabilityTriple};

#[test]
fn test_decide_picks_class_of_max_probability() {
    // [0.7, 0.2, 0.1] as (home, draw, away)
    let probs = ProbabilityTriple { p_home: 700, p_draw: 200, p_away: 100 };
    let (outcome, confidence) = decide(&probs);
    assert_eq!(outcome, MatchResult::HomeWin);
    assert_eq!(confidence, 700);
}

#[test]
fn test_decide_away_win() {
    let probs = ProbabilityTriple { p_home: 150, p_draw: 250, p_away: 600 };
    let (outcome, confidence) = decide(&probs);
    assert_eq!(outcome, MatchResult::AwayWin);
    assert_eq!(confidence, 600);
}

#[test]
fn test_three_way_tie_resolves_to_draw() {
    // one third each: the first maximum in the class order draw, home, away
    let probs = ProbabilityTriple { p_home: 333, p_draw: 333, p_away: 333 };
    let (outcome, confidence) = decide(&probs);
    assert_eq!(outcome, MatchResult::Draw);
    assert_eq!(confidence, 333);
}

#[test]
fn test_two_way_tie_prefers_earlier_class() {
    // home and away tied above draw: home comes first in class order
    let probs = ProbabilityTriple { p_home: 450, p_draw: 100, p_away: 450 };
    let (outcome, _) = decide(&probs);
    assert_eq!(outcome, MatchResult::HomeWin);
}

#[test]
fn test_model_output_in_class_order_is_accepted() {
    // class order: draw, home, away
    let output = vec![200, 700, 100];
    let triple = probabilities_from_model_output(&output).unwrap();
    assert_eq!(triple, ProbabilityTriple { p_home: 700, p_draw: 200, p_away: 100 });
}

#[test]
fn test_model_output_of_wrong_width_is_an_inference_error() {
    let output = vec![500, 500];
    assert_eq!(
        probabilities_from_model_output(&output),
        Err(PredictionError::Inference)
    );
}

#[test]
fn test_model_output_off_distribution_is_an_inference_error() {
    // total mass 0.5: not a distribution within tolerance
    let output = vec![100, 300, 100];
    assert_eq!(
        probabilities_from_model_output(&output),
        Err(PredictionError::Inference)
    );
    // a single mass above one unit
    let output = vec![1200, 0, 0];
    assert_eq!(
        probabilities_from_model_output(&output),
        Err(PredictionError::Inference)
    );
}

#[test]
fn test_class_labels_follow_the_convention() {
    assert_eq!(MatchResult::Draw.to_class_label(), 0);
    assert_eq!(MatchResult::HomeWin.to_class_label(), 1);
    assert_eq!(MatchResult::AwayWin.to_class_label(), 2);
    assert_eq!(MatchResult::from_class_label(0), Some(MatchResult::Draw));
    assert_eq!(MatchResult::from_class_label(1), Some(MatchResult::HomeWin));
    assert_eq!(MatchResult::from_class_label(2), Some(MatchResult::AwayWin));
    assert_eq!(MatchResult::from_class_label(3), None);
    assert_eq!(MatchResult::from_class_label(-1), None);
}
