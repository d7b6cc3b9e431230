//! The Prediction record: created once per fixture and model version,
//! immutable except for the single reconciliation that sets the actual
//! outcome once the real result is known.

use vstd::prelude::*;
use crate::outcome::{spec_class_label, MatchResult};
use crate::probability::{spec_confidence, spec_decided_outcome, decide, ProbabilityTriple};

verus! {

/// Relies on `uuid::Uuid::new_v4` to draw a fresh random record id,
/// carried as its 128-bit value (`uuid::Uuid::as_u128`). The result is
/// random, so nothing is promised of it.
#[verifier::external_body]
fn fresh_record_id() -> u128 {
    uuid::Uuid::new_v4().as_u128()
}

/// Relies on `chrono::Utc::now` for the current wall-clock time, carried
/// as milliseconds since the Unix epoch (`DateTime::timestamp_millis`).
/// The result depends on the clock, so nothing is promised of it.
#[verifier::external_body]
fn now_unix_millis() -> i64 {
    chrono::Utc::now().timestamp_millis()
}

/// A stored prediction for one fixture under one model version.
///
/// Probabilities and the confidence are milliunit masses; `created_at`
/// is milliseconds since the Unix epoch. `actual_result` and
/// `was_correct` stay `None` until reconciliation.
#[derive(Debug, PartialEq)]
pub struct Prediction {
    pub id: u128,
    pub match_id: u128,
    pub model_version: String,
    pub prob_home_win: u32,
    pub prob_draw: u32,
    pub prob_away_win: u32,
    /// Class label of the predicted outcome: 0 = Draw, 1 = Home, 2 = Away.
    pub predicted_result: i32,
    pub confidence: u32,
    pub actual_result: Option<i32>,
    pub was_correct: Option<bool>,
    pub created_at: i64,
}

/// The probability triple a prediction stores.
pub open spec fn spec_stored_triple(p: Prediction) -> ProbabilityTriple {
    ProbabilityTriple { p_home: p.prob_home_win, p_draw: p.prob_draw, p_away: p.prob_away_win }
}

/// A prediction as `reconcile` leaves it: the actual outcome's class
/// label recorded, and correctness judged against the label predicted
/// at creation time. Everything else is untouched.
pub open spec fn spec_reconciled(p: Prediction, actual: MatchResult) -> Prediction {
    Prediction {
        actual_result: Some(spec_class_label(actual) as i32),
        was_correct: Some(spec_class_label(actual) == p.predicted_result),
        ..p
    }
}

impl Prediction {
    /// Internal consistency of a stored prediction: the probabilities
    /// form a valid distribution, the predicted label and confidence are
    /// exactly what the decision engine derives from them, and the two
    /// reconciliation fields are filled in together or not at all.
    pub open spec fn wf(&self) -> bool {
        &&& spec_stored_triple(*self).wf()
        &&& self.predicted_result == spec_class_label(spec_decided_outcome(spec_stored_triple(*self)))
        &&& self.confidence == spec_confidence(spec_stored_triple(*self))
        &&& (self.actual_result is Some <==> self.was_correct is Some)
        &&& (self.actual_result is Some ==> {
            &&& 0 <= self.actual_result->0 <= 2
            &&& self.was_correct->0 == (self.actual_result->0 == self.predicted_result)
        })
    }

    /// Creates the prediction for a fixture from the classifier's output
    /// distribution, deciding the outcome and confidence on the spot.
    ///
    /// The record id and creation timestamp are drawn from the
    /// environment and are the only fields the contract leaves open.
    pub fn new(match_id: u128, model_version: String, probabilities: ProbabilityTriple) -> (p:
        Prediction)
        requires
            probabilities.wf(),
        ensures
            p.wf(),
            p.match_id == match_id,
            p.model_version@ == model_version@,
            spec_stored_triple(p) == probabilities,
            p.predicted_result == spec_class_label(spec_decided_outcome(probabilities)),
            p.confidence == spec_confidence(probabilities),
            p.actual_result is None,
            p.was_correct is None,
    {
        let (outcome, confidence) = decide(&probabilities);
        let predicted_result = outcome.to_class_label();
        Prediction {
            id: fresh_record_id(),
            match_id,
            model_version,
            prob_home_win: probabilities.p_home,
            prob_draw: probabilities.p_draw,
            prob_away_win: probabilities.p_away,
            predicted_result,
            confidence,
            actual_result: None,
            was_correct: None,
            created_at: now_unix_millis(),
        }
    }

    /// Records the real outcome of the fixture and whether the prediction
    /// was right: `was_correct` becomes the comparison of the actual
    /// outcome's class label with the predicted one.
    pub fn update_actual_result(&mut self, actual_result: MatchResult)
        ensures
            *final(self) == spec_reconciled(*old(self), actual_result),
            old(self).wf() ==> final(self).wf(),
    {
        let actual = actual_result.to_class_label();
        self.actual_result = Some(actual);
        self.was_correct = Some(actual == self.predicted_result);
    }
}

impl Clone for Prediction {
    /// An exact copy: every field of the clone equals the original's.
    fn clone(&self) -> (other: Self)
        ensures
            other == *self,
    {
        Prediction {
            id: self.id,
            match_id: self.match_id,
            model_version: self.model_version.clone(),
            prob_home_win: self.prob_home_win,
            prob_draw: self.prob_draw,
            prob_away_win: self.prob_away_win,
            predicted_result: self.predicted_result,
            confidence: self.confidence,
            actual_result: self.actual_result,
            was_correct: self.was_correct,
            created_at: self.created_at,
        }
    }
}

/// Reconciliation is idempotent: recording the same actual outcome a
/// second time leaves the record exactly as the first recording left it,
/// because the judgement depends only on the predicted label, which
/// reconciliation never touches.
pub proof fn lemma_reconcile_idempotent(p: Prediction, actual: MatchResult)
    ensures
        spec_reconciled(spec_reconciled(p, actual), actual) == spec_reconciled(p, actual),
{
}

} // verus!
