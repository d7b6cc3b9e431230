//! Match outcomes, their classifier class labels, and per-match form symbols.

use vstd::prelude::*;

verus! {

/// Scheduling state of a fixture as reported by the data provider.
#[derive(Clone, Copy, Debug, PartialEq, Eq, Structural)]
pub enum MatchStatus {
    Scheduled,
    Live,
    Finished,
    Postponed,
    Cancelled,
}

/// Final outcome of a match, seen from the home side.
///
/// The classifier's class-index convention is 0 = Draw, 1 = HomeWin,
/// 2 = AwayWin; `to_class_label` and `from_class_label` are the only
/// places where that convention is written down.
#[derive(Clone, Copy, Debug, PartialEq, Eq, Structural)]
pub enum MatchResult {
    HomeWin,
    Draw,
    AwayWin,
}

/// Class label of an outcome under the classifier's convention.
pub open spec fn spec_class_label(r: MatchResult) -> int {
    match r {
        MatchResult::Draw => 0,
        MatchResult::HomeWin => 1,
        MatchResult::AwayWin => 2,
    }
}

impl MatchResult {
    /// Class index of this outcome: 0 = Draw, 1 = HomeWin, 2 = AwayWin.
    pub fn to_class_label(&self) -> (label: i32)
        ensures
            label == spec_class_label(*self),
    {
        match self {
            MatchResult::Draw => 0,
            MatchResult::HomeWin => 1,
            MatchResult::AwayWin => 2,
        }
    }

    /// Outcome for a class index; `None` exactly on labels outside 0..=2.
    pub fn from_class_label(label: i32) -> (r: Option<MatchResult>)
        ensures
            r is Some <==> 0 <= label <= 2,
            r is Some ==> spec_class_label(r->0) == label,
    {
        match label {
            0 => Some(MatchResult::Draw),
            1 => Some(MatchResult::HomeWin),
            2 => Some(MatchResult::AwayWin),
            _ => None,
        }
    }
}

/// One entry of a team's recent-form sequence: the result of one past
/// match from that team's own point of view.
#[derive(Clone, Copy, Debug, PartialEq, Eq, Structural)]
pub enum FormOutcome {
    Win,
    Draw,
    Loss,
}

} // verus!
