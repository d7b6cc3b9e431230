//! The classifier's output distribution and the decision engine that turns
//! it into a discrete outcome with a confidence value.

use vstd::prelude::*;
use crate::errors::PredictionError;
use crate::outcome::MatchResult;

verus! {

/// One whole unit of probability mass, in milliunits.
pub const PROB_SCALE: u32 = 1000;

/// Allowed deviation of the mass total from one unit, in milliunits.
/// The model is responsible for producing a valid distribution; the
/// pipeline checks it but never renormalizes.
pub const PROB_SUM_TOLERANCE: u32 = 10;

/// A probability distribution over the three match outcomes, in
/// milliunits: 700 stands for 0.7.
#[derive(Clone, Copy, Debug, PartialEq, Eq, Structural)]
pub struct ProbabilityTriple {
    pub p_home: u32,
    pub p_draw: u32,
    pub p_away: u32,
}

impl ProbabilityTriple {
    /// Valid distribution: each mass lies in [0, 1] and the total is one
    /// within tolerance.
    pub open spec fn wf(&self) -> bool {
        &&& self.p_home <= PROB_SCALE
        &&& self.p_draw <= PROB_SCALE
        &&& self.p_away <= PROB_SCALE
        &&& PROB_SCALE - PROB_SUM_TOLERANCE <= self.p_home + self.p_draw + self.p_away
        &&& self.p_home + self.p_draw + self.p_away <= PROB_SCALE + PROB_SUM_TOLERANCE
    }
}

/// The largest probability mass in the triple.
pub open spec fn spec_confidence(t: ProbabilityTriple) -> int {
    if t.p_home as int >= t.p_draw as int && t.p_home as int >= t.p_away as int {
        t.p_home as int
    } else if t.p_draw as int >= t.p_away as int {
        t.p_draw as int
    } else {
        t.p_away as int
    }
}

/// The outcome the decision engine picks: the class with the maximum
/// probability, ties broken by the fixed class evaluation order
/// Draw (0), HomeWin (1), AwayWin (2) — the first-encountered maximum
/// wins, never a random choice.
pub open spec fn spec_decided_outcome(t: ProbabilityTriple) -> MatchResult {
    if t.p_home > t.p_draw {
        if t.p_away > t.p_home {
            MatchResult::AwayWin
        } else {
            MatchResult::HomeWin
        }
    } else {
        if t.p_away > t.p_draw {
            MatchResult::AwayWin
        } else {
            MatchResult::Draw
        }
    }
}

/// Decides a discrete outcome from a probability triple.
///
/// The outcome is the class with the maximum probability, ties broken
/// deterministically by the class evaluation order Draw, HomeWin,
/// AwayWin; the confidence is the chosen class's own probability mass.
/// Every triple yields a decision: there is no failure path.
pub fn decide(probs: &ProbabilityTriple) -> (decision: (MatchResult, u32))
    ensures
        decision.0 == spec_decided_outcome(*probs),
        decision.1 == spec_confidence(*probs),
        decision.1 == match decision.0 {
            MatchResult::Draw => probs.p_draw,
            MatchResult::HomeWin => probs.p_home,
            MatchResult::AwayWin => probs.p_away,
        },
{
    let mut outcome = MatchResult::Draw;
    let mut confidence = probs.p_draw;
    if probs.p_home > confidence {
        outcome = MatchResult::HomeWin;
        confidence = probs.p_home;
    }
    if probs.p_away > confidence {
        outcome = MatchResult::AwayWin;
        confidence = probs.p_away;
    }
    (outcome, confidence)
}

/// Reads the classifier's raw output into a probability triple.
///
/// The raw values come in class order: draw, home win, away win, in
/// milliunits. Returns `Inference` exactly when the output cannot be a
/// distribution over the three outcomes: a width other than 3, a mass
/// above one, or a total off by more than the tolerance. No fallback
/// distribution is ever substituted.
pub fn probabilities_from_model_output(output: &Vec<u32>) -> (r: Result<
    ProbabilityTriple,
    PredictionError,
>)
    ensures
        match r {
            Ok(t) => {
                &&& output@.len() == 3
                &&& t == (ProbabilityTriple {
                    p_home: output@[1],
                    p_draw: output@[0],
                    p_away: output@[2],
                })
                &&& t.wf()
            },
            Err(e) => {
                &&& e == PredictionError::Inference
                &&& (output@.len() == 3 ==> !(ProbabilityTriple {
                    p_home: output@[1],
                    p_draw: output@[0],
                    p_away: output@[2],
                }).wf())
            },
        },
{
    if output.len() != 3 {
        return Err(PredictionError::Inference);
    }
    let triple = ProbabilityTriple { p_home: output[1], p_draw: output[0], p_away: output[2] };
    if triple.p_home > PROB_SCALE || triple.p_draw > PROB_SCALE || triple.p_away > PROB_SCALE {
        return Err(PredictionError::Inference);
    }
    let sum: u32 = triple.p_home + triple.p_draw + triple.p_away;
    if sum < PROB_SCALE - PROB_SUM_TOLERANCE || sum > PROB_SCALE + PROB_SUM_TOLERANCE {
        return Err(PredictionError::Inference);
    }
    Ok(triple)
}

} // verus!
