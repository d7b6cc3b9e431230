//! Error taxonomy of the prediction core.

use vstd::prelude::*;

verus! {

/// Everything that can go wrong inside the prediction pipeline.
///
/// `UpstreamData`: team or form data could not be obtained from the data
/// collaborator (recoverable by retrying at the caller's layer).
/// `Inference`: the classifier call failed or returned malformed output;
/// no fallback prediction is ever substituted.
/// `NotFound`: reconciliation was requested for a fixture and model version
/// with no stored prediction.
#[derive(Clone, Copy, Debug, PartialEq, Eq, Structural)]
pub enum PredictionError {
    UpstreamData,
    Inference,
    NotFound,
}

} // verus!
