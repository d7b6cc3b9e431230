//! The step of the pipeline between the classifier and the store: turns
//! the classifier's raw output for a fixture into a Prediction record.

use vstd::prelude::*;
use crate::errors::PredictionError;
use crate::outcome::spec_class_label;
use crate::prediction::{spec_stored_triple, Prediction};
use crate::probability::{
    probabilities_from_model_output, spec_confidence, spec_decided_outcome, ProbabilityTriple,
};

verus! {

/// Version tag of the model artifact predictions are keyed under.
pub const MODEL_VERSION: &'static str = "v1.0";

/// The triple a raw three-entry classifier output denotes; the output
/// comes in class order draw, home win, away win.
pub open spec fn spec_output_triple(output: Seq<u32>) -> ProbabilityTriple {
    ProbabilityTriple { p_home: output[1], p_draw: output[0], p_away: output[2] }
}

/// Builds the Prediction record for a fixture from the classifier's raw
/// output, in milliunit class order draw, home win, away win.
///
/// `Inference` exactly when the output is not a valid distribution over
/// the three outcomes; otherwise the record's probabilities, predicted
/// label and confidence are pinned by the output alone — no fallback
/// prediction is ever substituted for bad classifier output.
pub fn prediction_from_model_output(
    match_id: u128,
    model_version: String,
    output: &Vec<u32>,
) -> (r: Result<Prediction, PredictionError>)
    ensures
        match r {
            Ok(p) => {
                &&& output@.len() == 3
                &&& spec_output_triple(output@).wf()
                &&& p.wf()
                &&& p.match_id == match_id
                &&& p.model_version@ == model_version@
                &&& spec_stored_triple(p) == spec_output_triple(output@)
                &&& p.predicted_result == spec_class_label(
                    spec_decided_outcome(spec_output_triple(output@)),
                )
                &&& p.confidence == spec_confidence(spec_output_triple(output@))
                &&& p.actual_result is None
                &&& p.was_correct is None
            },
            Err(e) => {
                &&& e == PredictionError::Inference
                &&& !(output@.len() == 3 && spec_output_triple(output@).wf())
            },
        },
{
    match probabilities_from_model_output(output) {
        Ok(triple) => Ok(Prediction::new(match_id, model_version, triple)),
        Err(e) => Err(e),
    }
}

} // verus!
