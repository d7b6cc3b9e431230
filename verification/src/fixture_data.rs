//! Shapes of the fixture data the external football-data provider
//! delivers, and the reading of a final score as a match outcome.

use vstd::prelude::*;
use crate::outcome::MatchResult;

verus! {

/// One team as the provider names it.
#[derive(Clone, Debug)]
pub struct ApiTeamInfo {
    pub id: i32,
    pub name: String,
    pub short_name: Option<String>,
    pub crest: Option<String>,
}

/// Full-time goal counts; absent while the match is not finished.
#[derive(Clone, Copy, Debug, PartialEq, Eq, Structural)]
pub struct ApiScoreDetail {
    pub home: Option<i32>,
    pub away: Option<i32>,
}

/// Score block of a fixture: the provider's winner tag and the full-time
/// goal counts.
#[derive(Clone, Debug)]
pub struct ApiScore {
    pub winner: Option<String>,
    pub full_time: ApiScoreDetail,
}

/// One fixture as the provider reports it.
#[derive(Clone, Debug)]
pub struct ApiMatch {
    pub id: i32,
    pub utc_date: String,
    pub status: String,
    pub matchday: i32,
    pub home_team: ApiTeamInfo,
    pub away_team: ApiTeamInfo,
    pub score: Option<ApiScore>,
}

/// The provider's fixture listing.
#[derive(Clone, Debug)]
pub struct FixturesResponse {
    pub matches: Vec<ApiMatch>,
}

/// Statistics block the provider reports for one team.
#[derive(Clone, Debug)]
pub struct ApiTeamStats {
    pub id: i32,
    pub name: String,
}

/// The outcome a full-time score denotes.
pub open spec fn spec_result_of_score(home: int, away: int) -> MatchResult {
    if home > away {
        MatchResult::HomeWin
    } else if away > home {
        MatchResult::AwayWin
    } else {
        MatchResult::Draw
    }
}

/// Reads a full-time score as a match outcome, for reconciling stored
/// predictions; `None` exactly while either goal count is still absent.
pub fn result_from_score(score: &ApiScoreDetail) -> (r: Option<MatchResult>)
    ensures
        r is Some <==> score.home is Some && score.away is Some,
        r matches Some(outcome) ==> outcome == spec_result_of_score(
            score.home->0 as int,
            score.away->0 as int,
        ),
{
    match (score.home, score.away) {
        (Some(home), Some(away)) => {
            if home > away {
                Some(MatchResult::HomeWin)
            } else if away > home {
                Some(MatchResult::AwayWin)
            } else {
                Some(MatchResult::Draw)
            }
        },
        _ => None,
    }
}

} // verus!
